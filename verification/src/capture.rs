//! The frame source: what the capture thread decides.
//!
//! The capture thread opens the camera, pulls one image after the other,
//! numbers each and pushes it into the frame channel. The camera calls are
//! made by the caller; this module decides what happens next. The source
//! stops for good when the device cannot be opened, when it reports an
//! error, or when the consumer has gone away, and it then drops its end of
//! the channel so that the consumer sees the end of the stream.

use crate::channel::{frame_channel, FrameReceiver, FrameSender, FRAME_CHANNEL_CAPACITY};
use crate::frame::{frame_of, Frame};
use crate::raster::Raster;
use vstd::prelude::*;

verus! {

/// Pixel format requested from the device.
#[derive(Debug, Clone, Copy, PartialEq, Eq, Structural)]
pub enum FrameFormat {
    Mjpeg,
    Yuyv,
}

/// Capture backend requested for the device.
#[derive(Debug, Clone, Copy, PartialEq, Eq, Structural)]
pub enum Backend {
    Auto,
    UniversalVideoClass,
    GStreamer,
    Video4Linux,
    OpenCv,
}

/// The format a command-line value names: `YUYV`, and MJPEG for anything
/// else.
pub open spec fn format_named(name: Seq<char>) -> FrameFormat {
    if name == "YUYV"@ {
        FrameFormat::Yuyv
    } else {
        FrameFormat::Mjpeg
    }
}

/// The backend a capture option names: `UVC`, `GST`, `V4L` or `OPENCV`, and
/// the automatic choice for anything else.
pub open spec fn capture_backend_named(name: Seq<char>) -> Backend {
    if name == "UVC"@ {
        Backend::UniversalVideoClass
    } else if name == "GST"@ {
        Backend::GStreamer
    } else if name == "V4L"@ {
        Backend::Video4Linux
    } else if name == "OPENCV"@ {
        Backend::OpenCv
    } else {
        Backend::Auto
    }
}

/// The backend a device query names: `UVC`, `GST` or `V4L`, and the
/// automatic choice for anything else.
pub open spec fn query_backend_named(name: Seq<char>) -> Backend {
    if name == "UVC"@ {
        Backend::UniversalVideoClass
    } else if name == "GST"@ {
        Backend::GStreamer
    } else if name == "V4L"@ {
        Backend::Video4Linux
    } else {
        Backend::Auto
    }
}

/// Whether two strings hold the same text.
fn same_text(a: &str, b: &str) -> (same: bool)
    ensures
        same == (a@ == b@),
{
    let left = a.to_owned();
    let right = b.to_owned();
    left == right
}

impl FrameFormat {
    /// Reads the pixel format from a command-line value.
    pub fn from_name(name: &str) -> (format: FrameFormat)
        ensures
            format == format_named(name@),
    {
        if same_text(name, "YUYV") {
            FrameFormat::Yuyv
        } else {
            FrameFormat::Mjpeg
        }
    }
}

impl Backend {
    /// Reads the backend from the value of the capture option.
    pub fn from_capture_name(name: &str) -> (backend: Backend)
        ensures
            backend == capture_backend_named(name@),
    {
        if same_text(name, "UVC") {
            Backend::UniversalVideoClass
        } else if same_text(name, "GST") {
            Backend::GStreamer
        } else if same_text(name, "V4L") {
            Backend::Video4Linux
        } else if same_text(name, "OPENCV") {
            Backend::OpenCv
        } else {
            Backend::Auto
        }
    }

    /// Reads the backend from the value of the query option.
    pub fn from_query_name(name: &str) -> (backend: Backend)
        ensures
            backend == query_backend_named(name@),
    {
        if same_text(name, "UVC") {
            Backend::UniversalVideoClass
        } else if same_text(name, "GST") {
            Backend::GStreamer
        } else if same_text(name, "V4L") {
            Backend::Video4Linux
        } else {
            Backend::Auto
        }
    }
}

/// What the device is asked for when it is opened.
#[derive(Debug, Clone, Copy, PartialEq, Eq, Structural)]
pub struct CaptureConfig {
    pub index: usize,
    pub width: u32,
    pub height: u32,
    pub fps: u32,
    pub format: FrameFormat,
    pub backend: Backend,
    pub query_device: bool,
}

/// Every how many frames the source hands out a diagnostic.
pub const DIAGNOSTIC_INTERVAL: usize = 100;

/// What is logged about a captured frame.
#[derive(Debug, Clone, Copy, PartialEq, Eq, Structural)]
pub struct Diagnostic {
    pub width: u32,
    pub height: u32,
    pub fps: u32,
    pub size: usize,
}

/// Why the source stopped.
#[derive(Debug, Clone, Copy, PartialEq, Eq, Structural)]
pub enum StopReason {
    /// The device could not be opened with the requested parameters.
    DeviceUnavailable,
    /// The device reported an unrecoverable error while streaming.
    DeviceFailed,
    /// The consumer dropped its end of the channel.
    ConsumerGone,
    /// The sequence numbers are used up.
    SequenceExhausted,
}

/// Where the source stands.
#[derive(Debug, Clone, Copy, PartialEq, Eq, Structural)]
pub enum CapturePhase {
    /// The device is being opened.
    Negotiating,
    /// The next image was asked for.
    Streaming,
    /// A frame was handed out for delivery.
    Delivering,
    /// The source has stopped and dropped its end of the channel.
    Closed(StopReason),
}

/// What the caller reports to the source.
#[derive(Debug)]
pub enum CaptureEvent {
    /// The device was opened.
    Opened,
    /// The device could not be opened.
    OpenFailed,
    /// The device delivered an image.
    Captured(Raster),
    /// The device reported an unrecoverable error.
    CaptureFailed,
    /// The frame handed out was taken by the channel.
    Delivered,
    /// The frame handed out was refused: the consumer is gone.
    Undeliverable,
}

/// What the source asks the caller to do.
#[derive(Debug)]
pub enum CaptureAction {
    /// Pull the next image from the device.
    Acquire,
    /// Log `log`, if any, and deliver `frame` with [`FrameSource::deliver`].
    Push { frame: Frame, log: Option<Diagnostic> },
    /// Leave the capture loop.
    Stop(StopReason),
    /// The event was not expected at this point; nothing changed.
    Ignored,
}

/// The capture side of the pipeline: the device parameters, the frame
/// counter and the sending end of the frame channel.
pub struct FrameSource {
    config: CaptureConfig,
    sender: Option<FrameSender>,
    phase: CapturePhase,
    captured: usize,
}

/// The mathematical content of a [`FrameSource`].
pub struct FrameSourceView {
    /// What the device is asked for.
    pub config: CaptureConfig,
    /// Where the source stands.
    pub phase: CapturePhase,
    /// Number of frames numbered so far.
    pub captured: nat,
}

impl View for FrameSource {
    type V = FrameSourceView;

    closed spec fn view(&self) -> FrameSourceView {
        FrameSourceView { config: self.config, phase: self.phase, captured: self.captured as nat }
    }
}

/// The diagnostic due for the frame that follows `captured` earlier ones: one
/// for the first frame and for every [`DIAGNOSTIC_INTERVAL`]th after it.
pub open spec fn diagnostic_due(captured: nat) -> bool {
    captured % (DIAGNOSTIC_INTERVAL as nat) == 0
}

/// The state a source in state `pre` moves to on `event`.
pub open spec fn capture_next(pre: FrameSourceView, event: CaptureEvent) -> FrameSourceView {
    match (pre.phase, event) {
        (CapturePhase::Negotiating, CaptureEvent::Opened) => FrameSourceView {
            phase: CapturePhase::Streaming,
            ..pre
        },
        (CapturePhase::Negotiating, CaptureEvent::OpenFailed) => FrameSourceView {
            phase: CapturePhase::Closed(StopReason::DeviceUnavailable),
            ..pre
        },
        (CapturePhase::Streaming, CaptureEvent::Captured(_)) => if pre.captured < usize::MAX {
            FrameSourceView { phase: CapturePhase::Delivering, captured: pre.captured + 1, ..pre }
        } else {
            FrameSourceView { phase: CapturePhase::Closed(StopReason::SequenceExhausted), ..pre }
        },
        (CapturePhase::Streaming, CaptureEvent::CaptureFailed) => FrameSourceView {
            phase: CapturePhase::Closed(StopReason::DeviceFailed),
            ..pre
        },
        (CapturePhase::Delivering, CaptureEvent::Delivered) => FrameSourceView {
            phase: CapturePhase::Streaming,
            ..pre
        },
        (CapturePhase::Delivering, CaptureEvent::Undeliverable) => FrameSourceView {
            phase: CapturePhase::Closed(StopReason::ConsumerGone),
            ..pre
        },
        _ => pre,
    }
}

/// `action` is what a source in state `pre` answers to `event`.
pub open spec fn capture_action(
    pre: FrameSourceView,
    event: CaptureEvent,
    action: CaptureAction,
) -> bool {
    match (pre.phase, event) {
        (CapturePhase::Negotiating, CaptureEvent::Opened) => action is Acquire,
        (CapturePhase::Negotiating, CaptureEvent::OpenFailed) => action == CaptureAction::Stop(
            StopReason::DeviceUnavailable,
        ),
        (CapturePhase::Streaming, CaptureEvent::Captured(image)) => if pre.captured < usize::MAX {
            &&& action matches CaptureAction::Push { frame, log }
            &&& frame@ == frame_of(pre.captured + 1, image)
            &&& log == if diagnostic_due(pre.captured) {
                Some(
                    Diagnostic {
                        width: frame@.width as u32,
                        height: frame@.height as u32,
                        fps: pre.config.fps,
                        size: frame@.pixels.len() as usize,
                    },
                )
            } else {
                None
            }
        } else {
            action == CaptureAction::Stop(StopReason::SequenceExhausted)
        },
        (CapturePhase::Streaming, CaptureEvent::CaptureFailed) => action == CaptureAction::Stop(
            StopReason::DeviceFailed,
        ),
        (CapturePhase::Delivering, CaptureEvent::Delivered) => action is Acquire,
        (CapturePhase::Delivering, CaptureEvent::Undeliverable) => action == CaptureAction::Stop(
            StopReason::ConsumerGone,
        ),
        _ => action is Ignored,
    }
}

/// Sequence numbers are handed out in strictly increasing order: a frame is
/// numbered one above the count before it, the count never decreases, and
/// only a numbered frame raises it.
pub proof fn lemma_sequence_numbers_increase(
    pre: FrameSourceView,
    event: CaptureEvent,
    action: CaptureAction,
)
    requires
        capture_action(pre, event, action),
    ensures
        capture_next(pre, event).captured >= pre.captured,
        action matches CaptureAction::Push { frame, .. } ==> frame@.seq == pre.captured + 1
            && capture_next(pre, event).captured == frame@.seq,
        !(action is Push) ==> capture_next(pre, event).captured == pre.captured,
{
}

/// A source that has stopped stays stopped and asks for nothing more.
pub proof fn lemma_closed_is_final(pre: FrameSourceView, event: CaptureEvent, action: CaptureAction)
    requires
        pre.phase is Closed,
        capture_action(pre, event, action),
    ensures
        capture_next(pre, event) == pre,
        action is Ignored,
{
}

impl FrameSource {
    #[verifier::type_invariant]
    spec fn well_formed(self) -> bool {
        self.sender is None <==> self.phase is Closed
    }

    /// The source still holds its end of the frame channel.
    pub closed spec fn connected(&self) -> bool {
        self.sender is Some
    }

    /// The capacity of the channel the source feeds, seen from the sending
    /// end; zero once the source has dropped that end.
    pub closed spec fn channel_bound(&self) -> nat {
        match self.sender {
            Some(sender) => sender.bound(),
            None => 0,
        }
    }

    /// Creates the frame channel and the source that feeds it. The receiving
    /// end goes to the consumer.
    pub fn open(config: CaptureConfig) -> (ends: (FrameSource, FrameReceiver))
        ensures
            ends.0@ == (FrameSourceView { config, phase: CapturePhase::Negotiating, captured: 0 }),
            ends.0.connected(),
            ends.0.channel_bound() == FRAME_CHANNEL_CAPACITY,
            ends.1.bound() == FRAME_CHANNEL_CAPACITY,
    {
        let (sender, receiver) = frame_channel();
        (
            FrameSource {
                config,
                sender: Some(sender),
                phase: CapturePhase::Negotiating,
                captured: 0,
            },
            receiver,
        )
    }

    /// What the device is asked for.
    pub fn config(&self) -> (config: CaptureConfig)
        ensures
            config == self@.config,
    {
        self.config
    }

    /// Where the source stands.
    pub fn phase(&self) -> (phase: CapturePhase)
        ensures
            phase == self@.phase,
            phase is Closed <==> !self.connected(),
    {
        proof {
            use_type_invariant(self);
        }
        self.phase
    }

    /// Number of frames numbered so far.
    pub fn captured(&self) -> (count: usize)
        ensures
            count == self@.captured,
    {
        self.captured
    }

    /// Pushes `frame` into the channel, waiting until the slot is free, and
    /// returns the event to report: [`CaptureEvent::Delivered`], or
    /// [`CaptureEvent::Undeliverable`] when the consumer is gone or the source
    /// has stopped. Which of the first two it is depends on the consumer.
    pub fn deliver(&self, frame: Frame) -> (event: CaptureEvent)
        ensures
            event is Delivered || event is Undeliverable,
            self@.phase is Closed ==> event is Undeliverable,
    {
        proof {
            use_type_invariant(self);
        }
        match &self.sender {
            Some(sender) => Self::delivery_event(sender.push(frame)),
            None => CaptureEvent::Undeliverable,
        }
    }

    /// The event that the outcome of a push stands for.
    pub fn delivery_event(sent: Result<(), Frame>) -> (event: CaptureEvent)
        ensures
            sent is Ok ==> event is Delivered,
            sent is Err ==> event is Undeliverable,
    {
        match sent {
            Ok(()) => CaptureEvent::Delivered,
            Err(_) => CaptureEvent::Undeliverable,
        }
    }

    /// Hands one event to the source and returns the source in its next state
    /// together with what the caller has to do. A source that stops drops its
    /// end of the channel.
    pub fn step(self, event: CaptureEvent) -> (out: (FrameSource, CaptureAction))
        ensures
            out.0@ == capture_next(self@, event),
            capture_action(self@, event, out.1),
            out.0.connected() <==> !(out.0@.phase is Closed),
            out.0.connected() ==> out.0.channel_bound() == FRAME_CHANNEL_CAPACITY,
    {
        proof {
            use_type_invariant(&self);
        }
        let FrameSource { config, sender, phase, captured } = self;
        match &sender {
            Some(held) => {
                proof {
                    use_type_invariant(held);
                }
            },
            None => {},
        }
        match phase {
            CapturePhase::Negotiating => match event {
                CaptureEvent::Opened => (
                    FrameSource { config, sender, phase: CapturePhase::Streaming, captured },
                    CaptureAction::Acquire,
                ),
                CaptureEvent::OpenFailed => (
                    FrameSource {
                        config,
                        sender: None,
                        phase: CapturePhase::Closed(StopReason::DeviceUnavailable),
                        captured,
                    },
                    CaptureAction::Stop(StopReason::DeviceUnavailable),
                ),
                _ => (FrameSource { config, sender, phase, captured }, CaptureAction::Ignored),
            },
            CapturePhase::Streaming => match event {
                CaptureEvent::Captured(image) => {
                    if captured < usize::MAX {
                        let seq = captured + 1;
                        let frame = Frame::from_image(seq, &image);
                        let log = if captured % DIAGNOSTIC_INTERVAL == 0 {
                            Some(
                                Diagnostic {
                                    width: frame.width(),
                                    height: frame.height(),
                                    fps: config.fps,
                                    size: frame.len(),
                                },
                            )
                        } else {
                            None
                        };
                        (
                            FrameSource {
                                config,
                                sender,
                                phase: CapturePhase::Delivering,
                                captured: seq,
                            },
                            CaptureAction::Push { frame, log },
                        )
                    } else {
                        (
                            FrameSource {
                                config,
                                sender: None,
                                phase: CapturePhase::Closed(StopReason::SequenceExhausted),
                                captured,
                            },
                            CaptureAction::Stop(StopReason::SequenceExhausted),
                        )
                    }
                },
                CaptureEvent::CaptureFailed => (
                    FrameSource {
                        config,
                        sender: None,
                        phase: CapturePhase::Closed(StopReason::DeviceFailed),
                        captured,
                    },
                    CaptureAction::Stop(StopReason::DeviceFailed),
                ),
                _ => (FrameSource { config, sender, phase, captured }, CaptureAction::Ignored),
            },
            CapturePhase::Delivering => match event {
                CaptureEvent::Delivered => (
                    FrameSource { config, sender, phase: CapturePhase::Streaming, captured },
                    CaptureAction::Acquire,
                ),
                CaptureEvent::Undeliverable => (
                    FrameSource {
                        config,
                        sender: None,
                        phase: CapturePhase::Closed(StopReason::ConsumerGone),
                        captured,
                    },
                    CaptureAction::Stop(StopReason::ConsumerGone),
                ),
                _ => (FrameSource { config, sender, phase, captured }, CaptureAction::Ignored),
            },
            CapturePhase::Closed(_) => (
                FrameSource { config, sender, phase, captured },
                CaptureAction::Ignored,
            ),
        }
    }
}

} // verus!
