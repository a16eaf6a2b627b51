use vstd::prelude::*;
use vstd::string::StringExecFns;
use crate::error::{Error, HostError};
use crate::frame::EncodedFrame;
use crate::handle::Handle;
use crate::encoded::{EncodedQueue, EncodedView};
use crate::outputs::{await_host, awaited, Next, Status};
use crate::units::{Duration, Timestamp};
use std::collections::VecDeque;
use super::decoder::{
    hardware_wish, to_hardware_wish, HardwareAcceleration, VideoDecoderConfig,
    VideoDecoderConfigView,
};
use super::dimensions::{optional_positive, Dimensions};
use super::frame::VideoFrame;

verus! {

/// How an encoder spends its bit rate.
#[derive(Debug, Clone, Copy, PartialEq, Eq, Hash, Structural)]
pub enum VideoBitrateMode {
    Constant,
    Variable,
    Quantizer,
}

impl VideoBitrateMode {
    /// The name of the mode as it is written.
    pub open spec fn name_spec(self) -> Seq<char> {
        match self {
            VideoBitrateMode::Constant => "constant"@,
            VideoBitrateMode::Variable => "variable"@,
            VideoBitrateMode::Quantizer => "quantizer"@,
        }
    }

    /// The name of the mode as it is written.
    pub fn name(&self) -> (name: &'static str)
        ensures
            name@ == self.name_spec(),
    {
        match self {
            VideoBitrateMode::Constant => "constant",
            VideoBitrateMode::Variable => "variable",
            VideoBitrateMode::Quantizer => "quantizer",
        }
    }
}

/// A number of frames per span of seconds, such as 30000 frames in 1001
/// seconds.
#[derive(Debug, Clone, Copy, PartialEq, Eq, Hash, Structural)]
pub struct FrameRate {
    pub frames: u32,
    pub seconds: u32,
}

/// What the host is told about the trade between latency and quality.
#[derive(Debug, Clone, Copy, PartialEq, Eq, Hash, Structural)]
pub enum LatencyMode {
    Quality,
    Realtime,
}

/// What the host is told about the alpha channel.
#[derive(Debug, Clone, Copy, PartialEq, Eq, Hash, Structural)]
pub enum AlphaOption {
    Keep,
    Discard,
}

/// The latency mode that stands for a wish to optimize for latency.
pub open spec fn latency_wish(optimized: Option<bool>) -> Option<LatencyMode> {
    match optimized {
        Some(true) => Some(LatencyMode::Realtime),
        Some(false) => Some(LatencyMode::Quality),
        None => None,
    }
}

/// The alpha option that stands for a wish to keep the alpha channel.
pub open spec fn alpha_wish(preserved: Option<bool>) -> Option<AlphaOption> {
    match preserved {
        Some(true) => Some(AlphaOption::Keep),
        Some(false) => Some(AlphaOption::Discard),
        None => None,
    }
}

/// What a text that may be left out holds.
pub open spec fn optional_text(text: Option<String>) -> Option<Seq<char>> {
    match text {
        Some(t) => Some(t@),
        None => None,
    }
}

/// A copy of a text that may be left out.
pub fn clone_optional_text(text: &Option<String>) -> (copy: Option<String>)
    ensures
        copy == *text,
{
    match text {
        Some(t) => Some(t.clone()),
        None => None,
    }
}

/// The settings of a video encoder.
#[derive(Debug, PartialEq, Eq)]
pub struct VideoEncoderConfig {
    /// The codec, as a MIME type string.
    pub codec: String,
    /// The coded size of the pictures. Neither side may be zero.
    pub resolution: Dimensions,
    /// The size at which the pictures are to be shown, where it differs.
    /// Neither side may be zero.
    pub display: Option<Dimensions>,
    /// Whether to ask for hardware (`true`) or software (`false`).
    pub hardware_acceleration: Option<bool>,
    /// Whether to trade quality for latency.
    pub latency_optimized: Option<bool>,
    /// Bits per second.
    pub bitrate: Option<u32>,
    pub framerate: Option<FrameRate>,
    /// Whether to keep the alpha channel.
    pub alpha_preserved: Option<bool>,
    pub scalability_mode: Option<String>,
    /// How the bit rate is spent. The host is not told: the mode is a note
    /// for those who hold the settings.
    pub bitrate_mode: Option<VideoBitrateMode>,
    /// The longest span between two keyframes. A frame that comes this long
    /// after the last keyframe, or later, is encoded as a keyframe.
    pub max_gop_duration: Option<Duration>,
}

/// The settings of a video encoder as contracts see them.
pub struct VideoEncoderConfigView {
    pub codec: Seq<char>,
    pub resolution: Dimensions,
    pub display: Option<Dimensions>,
    pub hardware_acceleration: Option<bool>,
    pub latency_optimized: Option<bool>,
    pub bitrate: Option<u32>,
    pub framerate: Option<FrameRate>,
    pub alpha_preserved: Option<bool>,
    pub scalability_mode: Option<Seq<char>>,
    pub bitrate_mode: Option<VideoBitrateMode>,
    pub max_gop_duration: Option<Duration>,
}

/// The settings of a video encoder in the form in which the host takes them.
#[derive(Debug, PartialEq, Eq)]
pub struct HostVideoEncoderConfig {
    pub codec: String,
    pub width: u32,
    pub height: u32,
    pub display_width: Option<u32>,
    pub display_height: Option<u32>,
    pub hardware_acceleration: Option<HardwareAcceleration>,
    pub latency_mode: Option<LatencyMode>,
    pub bitrate: Option<u32>,
    pub framerate: Option<FrameRate>,
    pub alpha: Option<AlphaOption>,
    pub scalability_mode: Option<String>,
}

/// The host's form of the settings as contracts see it.
pub struct HostVideoEncoderConfigView {
    pub codec: Seq<char>,
    pub width: u32,
    pub height: u32,
    pub display_width: Option<u32>,
    pub display_height: Option<u32>,
    pub hardware_acceleration: Option<HardwareAcceleration>,
    pub latency_mode: Option<LatencyMode>,
    pub bitrate: Option<u32>,
    pub framerate: Option<FrameRate>,
    pub alpha: Option<AlphaOption>,
    pub scalability_mode: Option<Seq<char>>,
}

impl View for VideoEncoderConfig {
    type V = VideoEncoderConfigView;

    open spec fn view(&self) -> VideoEncoderConfigView {
        VideoEncoderConfigView {
            codec: self.codec@,
            resolution: self.resolution,
            display: self.display,
            hardware_acceleration: self.hardware_acceleration,
            latency_optimized: self.latency_optimized,
            bitrate: self.bitrate,
            framerate: self.framerate,
            alpha_preserved: self.alpha_preserved,
            scalability_mode: optional_text(self.scalability_mode),
            bitrate_mode: self.bitrate_mode,
            max_gop_duration: self.max_gop_duration,
        }
    }
}

impl View for HostVideoEncoderConfig {
    type V = HostVideoEncoderConfigView;

    open spec fn view(&self) -> HostVideoEncoderConfigView {
        HostVideoEncoderConfigView {
            codec: self.codec@,
            width: self.width,
            height: self.height,
            display_width: self.display_width,
            display_height: self.display_height,
            hardware_acceleration: self.hardware_acceleration,
            latency_mode: self.latency_mode,
            bitrate: self.bitrate,
            framerate: self.framerate,
            alpha: self.alpha,
            scalability_mode: optional_text(self.scalability_mode),
        }
    }
}

impl VideoEncoderConfigView {
    /// Whether the coded size has pixels, and the display size too where it
    /// is given.
    pub open spec fn is_valid(self) -> bool {
        self.resolution.is_positive() && optional_positive(self.display)
    }

    /// The settings in the host's form.
    pub open spec fn to_host(self) -> HostVideoEncoderConfigView {
        HostVideoEncoderConfigView {
            codec: self.codec,
            width: self.resolution.width,
            height: self.resolution.height,
            display_width: super::decoder::width_of(self.display),
            display_height: super::decoder::height_of(self.display),
            hardware_acceleration: hardware_wish(self.hardware_acceleration),
            latency_mode: latency_wish(self.latency_optimized),
            bitrate: self.bitrate,
            framerate: self.framerate,
            alpha: alpha_wish(self.alpha_preserved),
            scalability_mode: self.scalability_mode,
        }
    }
}

impl VideoEncoderConfig {
    /// Settings for `codec` at `resolution` with everything else left open.
    pub fn new(codec: &str, resolution: Dimensions) -> (config: VideoEncoderConfig)
        ensures
            config@ == (VideoEncoderConfigView {
                codec: codec@,
                resolution,
                display: None,
                hardware_acceleration: None,
                latency_optimized: None,
                bitrate: None,
                framerate: None,
                alpha_preserved: None,
                scalability_mode: None,
                bitrate_mode: None,
                max_gop_duration: None,
            }),
    {
        VideoEncoderConfig {
            codec: String::from_str(codec),
            resolution,
            display: None,
            hardware_acceleration: None,
            latency_optimized: None,
            bitrate: None,
            framerate: None,
            alpha_preserved: None,
            scalability_mode: None,
            bitrate_mode: None,
            max_gop_duration: None,
        }
    }

    /// Reads the answer of the host to the question whether it supports
    /// these settings. That the host does not support them is an answer
    /// like any other; only a question that the host could not make sense
    /// of is an error.
    pub fn is_supported(&self, answer: Result<bool, HostError>) -> (r: Result<bool, Error>)
        ensures
            match answer {
                Ok(supported) => r == Ok::<bool, Error>(supported),
                Err(e) => r == Err::<bool, Error>(Error::Unknown(e)),
            },
    {
        match answer {
            Ok(supported) => Ok(supported),
            Err(e) => Err(Error::Unknown(e)),
        }
    }

    /// Accepts the settings if the coded size has no side of zero, and the
    /// display size neither where it is given.
    pub fn is_valid(&self) -> (r: Result<(), Error>)
        ensures
            r is Ok <==> self@.is_valid(),
            r is Err ==> r == Err::<(), Error>(Error::InvalidDimensions),
    {
        if self.resolution.width == 0 || self.resolution.height == 0 {
            return Err(Error::InvalidDimensions);
        }
        if let Some(display) = self.display {
            if display.width == 0 || display.height == 0 {
                return Err(Error::InvalidDimensions);
            }
        }
        Ok(())
    }

    /// The settings in the form in which the host takes them.
    pub fn to_host(&self) -> (host: HostVideoEncoderConfig)
        ensures
            host@ == self@.to_host(),
    {
        let (display_width, display_height) = match self.display {
            Some(d) => (Some(d.width), Some(d.height)),
            None => (None, None),
        };
        let latency_mode = match self.latency_optimized {
            Some(true) => Some(LatencyMode::Realtime),
            Some(false) => Some(LatencyMode::Quality),
            None => None,
        };
        let alpha = match self.alpha_preserved {
            Some(true) => Some(AlphaOption::Keep),
            Some(false) => Some(AlphaOption::Discard),
            None => None,
        };
        HostVideoEncoderConfig {
            codec: self.codec.clone(),
            width: self.resolution.width,
            height: self.resolution.height,
            display_width,
            display_height,
            hardware_acceleration: to_hardware_wish(self.hardware_acceleration),
            latency_mode,
            bitrate: self.bitrate,
            framerate: self.framerate,
            alpha,
            scalability_mode: clone_optional_text(&self.scalability_mode),
        }
    }

    /// Turns the settings into an encoder and the sequence of its outputs,
    /// once the host has made an engine and has been told the settings.
    ///
    /// `engine` is the host's engine and `configured` what the host
    /// answered to the settings. A refusal of the host is passed on and
    /// nothing is built; the engine is then dropped as it is.
    pub fn init<E>(self, engine: E, configured: Result<(), HostError>) -> (r: Result<
        (VideoEncoder<E>, VideoEncoded),
        Error,
    >)
        ensures
            match configured {
                Ok(_) => r matches Ok((encoder, encoded)) && encoder.engine() == Some(engine)
                    && encoder.settings() == self && encoder.last_keyframe().is_none()
                    && encoded@ == EncodedView::<VideoDecoderConfig>::fresh(),
                Err(e) => r matches Err(error) && error == Error::Unknown(e),
            },
    {
        match configured {
            Ok(_) => Ok(
                (
                    VideoEncoder { engine: Handle::new(engine), config: self, last_keyframe: None },
                    VideoEncoded { outputs: EncodedQueue::new() },
                ),
            ),
            Err(e) => Err(Error::Unknown(e)),
        }
    }
}

impl Clone for VideoEncoderConfig {
    fn clone(&self) -> (config: VideoEncoderConfig)
        ensures
            config == *self,
    {
        VideoEncoderConfig {
            codec: self.codec.clone(),
            resolution: self.resolution,
            display: self.display,
            hardware_acceleration: self.hardware_acceleration,
            latency_optimized: self.latency_optimized,
            bitrate: self.bitrate,
            framerate: self.framerate,
            alpha_preserved: self.alpha_preserved,
            scalability_mode: clone_optional_text(&self.scalability_mode),
            bitrate_mode: self.bitrate_mode,
            max_gop_duration: self.max_gop_duration,
        }
    }
}

impl Default for VideoEncoderConfig {
    /// Settings with no codec, an empty picture and everything else left
    /// open.
    fn default() -> (config: VideoEncoderConfig)
        ensures
            config@ == (VideoEncoderConfigView {
                codec: Seq::<char>::empty(),
                resolution: Dimensions { width: 0, height: 0 },
                display: None,
                hardware_acceleration: None,
                latency_optimized: None,
                bitrate: None,
                framerate: None,
                alpha_preserved: None,
                scalability_mode: None,
                bitrate_mode: None,
                max_gop_duration: None,
            }),
    {
        VideoEncoderConfig {
            codec: String::new(),
            resolution: Dimensions { width: 0, height: 0 },
            display: None,
            hardware_acceleration: None,
            latency_optimized: None,
            bitrate: None,
            framerate: None,
            alpha_preserved: None,
            scalability_mode: None,
            bitrate_mode: None,
            max_gop_duration: None,
        }
    }
}

/// What the caller wants of one call of `encode`.
#[derive(Debug, Clone, Copy, PartialEq, Eq, Structural)]
pub struct VideoEncodeOptions {
    /// Force (`true`) or forbid (`false`) a keyframe. Left open, the encoder
    /// decides by the age of the last keyframe.
    pub key_frame: Option<bool>,
}

impl Default for VideoEncodeOptions {
    fn default() -> (options: VideoEncodeOptions)
        ensures
            options.key_frame.is_none(),
    {
        VideoEncodeOptions { key_frame: None }
    }
}

/// What the host is told with one frame to encode.
#[derive(Debug, Clone, Copy, PartialEq, Eq, Structural)]
pub struct HostEncodeOptions {
    /// Whether the frame has to become a keyframe. Left open, the host
    /// decides.
    pub key_frame: Option<bool>,
}

/// The time of the last keyframe, the origin where none is on record.
pub open spec fn keyframe_time(last_keyframe: Option<Timestamp>) -> nat {
    match last_keyframe {
        Some(t) => t.micros(),
        None => 0,
    }
}

/// Whether a frame at `at` comes so long after the last keyframe that it has
/// to become one: the span since then has reached the longest that the
/// settings allow.
pub open spec fn gop_expired(
    max_gop_duration: Option<Duration>,
    last_keyframe: Option<Timestamp>,
    at: Timestamp,
) -> bool {
    max_gop_duration matches Some(limit) && at.micros() >= keyframe_time(last_keyframe)
        + limit.micros()
}

/// What the host is told about the keyframe: the wish of the caller where
/// there is one, else a keyframe where one is due, else nothing.
pub open spec fn key_frame_hint(
    wish: Option<bool>,
    max_gop_duration: Option<Duration>,
    last_keyframe: Option<Timestamp>,
    at: Timestamp,
) -> Option<bool> {
    match wish {
        Some(k) => Some(k),
        None => if gop_expired(max_gop_duration, last_keyframe, at) {
            Some(true)
        } else {
            None
        },
    }
}

/// The last keyframe on record after a frame at `at` was submitted: the frame
/// itself where the encoder made it a keyframe because one was due.
pub open spec fn keyframe_after_submit(
    wish: Option<bool>,
    max_gop_duration: Option<Duration>,
    last_keyframe: Option<Timestamp>,
    at: Timestamp,
) -> Option<Timestamp> {
    if wish.is_none() && gop_expired(max_gop_duration, last_keyframe, at) {
        Some(at)
    } else {
        last_keyframe
    }
}

/// The last keyframe on record after the host put out a unit: the unit
/// itself where it is a keyframe and newer than the one on record.
pub open spec fn keyframe_after_output(
    last_keyframe: Option<Timestamp>,
    at: Timestamp,
    keyframe: bool,
) -> Option<Timestamp> {
    if keyframe && at.micros() > keyframe_time(last_keyframe) {
        Some(at)
    } else {
        last_keyframe
    }
}

/// A frame that comes no earlier than the longest span after the last
/// keyframe is submitted as a keyframe and goes on record; an earlier one is
/// left to the host and changes nothing. A wish of the caller always wins.
pub proof fn lemma_keyframe_policy(
    limit: Duration,
    last_keyframe: Option<Timestamp>,
    at: Timestamp,
    wish: bool,
)
    ensures
        at.micros() >= keyframe_time(last_keyframe) + limit.micros() ==> key_frame_hint(
            None,
            Some(limit),
            last_keyframe,
            at,
        ) == Some(true) && keyframe_after_submit(None, Some(limit), last_keyframe, at) == Some(at),
        at.micros() < keyframe_time(last_keyframe) + limit.micros() ==> key_frame_hint(
            None,
            Some(limit),
            last_keyframe,
            at,
        ).is_none() && keyframe_after_submit(None, Some(limit), last_keyframe, at)
            == last_keyframe,
        key_frame_hint(None, None, last_keyframe, at).is_none(),
        key_frame_hint(Some(wish), Some(limit), last_keyframe, at) == Some(wish),
        keyframe_after_submit(Some(wish), Some(limit), last_keyframe, at) == last_keyframe,
{
}

/// The record of the last keyframe never moves back in time.
pub proof fn lemma_keyframe_record_monotonic(
    wish: Option<bool>,
    max_gop_duration: Option<Duration>,
    last_keyframe: Option<Timestamp>,
    at: Timestamp,
    keyframe: bool,
)
    ensures
        keyframe_time(keyframe_after_submit(wish, max_gop_duration, last_keyframe, at))
            >= keyframe_time(last_keyframe),
        keyframe_time(keyframe_after_output(last_keyframe, at, keyframe)) >= keyframe_time(
            last_keyframe,
        ),
{
}

/// A video encoder: the owner of one encoding engine of the host, its
/// settings, and the record of the last keyframe.
///
/// The encoder decides; the caller talks to the host. Each method says what
/// the host has to be told, or takes what the host has said.
#[derive(Debug)]
pub struct VideoEncoder<E> {
    engine: Handle<E>,
    config: VideoEncoderConfig,
    last_keyframe: Option<Timestamp>,
}

impl<E> VideoEncoder<E> {
    /// The engine of the host, as long as the encoder has not been closed.
    pub closed spec fn engine(&self) -> Option<E> {
        self.engine.resource()
    }

    /// The settings that the encoder was made with.
    pub closed spec fn settings(&self) -> VideoEncoderConfig {
        self.config
    }

    /// The time of the last keyframe on record.
    pub closed spec fn last_keyframe(&self) -> Option<Timestamp> {
        self.last_keyframe
    }

    /// Whether the encoder has not been closed.
    pub fn is_open(&self) -> (open: bool)
        ensures
            open == self.engine().is_some(),
    {
        self.engine.is_open()
    }

    /// The engine of the host, for a call that does not take it away.
    pub fn host(&self) -> (engine: Option<&E>)
        ensures
            match engine {
                Some(e) => self.engine() == Some(*e),
                None => self.engine().is_none(),
            },
    {
        self.engine.get()
    }

    pub fn config(&self) -> (config: &VideoEncoderConfig)
        ensures
            *config == self.settings(),
    {
        &self.config
    }

    /// The time of the last keyframe on record.
    pub fn keyframe_on_record(&self) -> (last: Option<Timestamp>)
        ensures
            last == self.last_keyframe(),
    {
        self.last_keyframe
    }

    /// Prepares one frame for the host and says what the host has to be told
    /// about the keyframe.
    ///
    /// A wish in `options` is passed on. Without one, the encoder asks for
    /// a keyframe if the settings limit the span between keyframes and the
    /// frame comes that long after the last keyframe on record, or later;
    /// it then puts the frame on record as the last keyframe.
    pub fn encode<R>(&mut self, frame: &VideoFrame<R>, options: VideoEncodeOptions) -> (host:
        HostEncodeOptions)
        ensures
            host.key_frame == key_frame_hint(
                options.key_frame,
                old(self).settings().max_gop_duration,
                old(self).last_keyframe(),
                frame.shown_at(),
            ),
            final(self).last_keyframe() == keyframe_after_submit(
                options.key_frame,
                old(self).settings().max_gop_duration,
                old(self).last_keyframe(),
                frame.shown_at(),
            ),
            final(self).settings() == old(self).settings(),
            final(self).engine() == old(self).engine(),
    {
        match options.key_frame {
            Some(k) => HostEncodeOptions { key_frame: Some(k) },
            None => match self.config.max_gop_duration {
                Some(limit) => {
                    let at = frame.timestamp();
                    let last = match self.last_keyframe {
                        Some(t) => t,
                        None => Timestamp::from_micros(0),
                    };
                    let due = match last.since_origin().checked_add(limit) {
                        Some(deadline) => at.since_origin().at_least(deadline),
                        None => false,
                    };
                    if due {
                        self.last_keyframe = Some(at);
                        HostEncodeOptions { key_frame: Some(true) }
                    } else {
                        HostEncodeOptions { key_frame: None }
                    }
                },
                None => HostEncodeOptions { key_frame: None },
            },
        }
    }

    /// The host has put out an encoded unit, with the settings for its
    /// decoder where the host hands them out.
    ///
    /// The settings replace those on record, a keyframe newer than the one
    /// on record goes on record, and the unit joins the output sequence.
    /// Tells whether the unit was kept: it is discarded after the end of the
    /// engine and without a reader. A closed encoder takes no notice at all.
    pub fn on_output(
        &mut self,
        encoded: &mut VideoEncoded,
        frame: EncodedFrame,
        decoder_config: Option<VideoDecoderConfig>,
    ) -> (kept: bool)
        ensures
            final(self).engine() == old(self).engine(),
            final(self).settings() == old(self).settings(),
            old(self).engine().is_some() ==> {
                &&& final(encoded)@ == old(encoded)@.deliver(frame, decoder_config)
                &&& final(self).last_keyframe() == keyframe_after_output(
                    old(self).last_keyframe(),
                    frame.timestamp,
                    frame.keyframe,
                )
                &&& kept == old(encoded)@.channel.accepts()
            },
            old(self).engine().is_none() ==> {
                &&& final(encoded)@ == old(encoded)@
                &&& final(self).last_keyframe() == old(self).last_keyframe()
                &&& !kept
            },
    {
        if !self.engine.is_open() {
            return false;
        }
        if frame.keyframe {
            let last = match self.last_keyframe {
                Some(t) => t,
                None => Timestamp::from_micros(0),
            };
            if frame.timestamp.is_after(last) {
                self.last_keyframe = Some(frame.timestamp);
            }
        }
        encoded.outputs.deliver(frame, decoder_config)
    }

    /// The host has reported a failure. It ends the output sequence unless
    /// the sequence has ended before; a closed encoder takes no notice.
    pub fn on_error(&self, encoded: &mut VideoEncoded, error: HostError)
        ensures
            final(encoded)@ == if self.engine().is_some() {
                old(encoded)@.fail(Error::Unknown(error))
            } else {
                old(encoded)@
            },
    {
        if self.engine.is_open() {
            encoded.outputs.fail(Error::Unknown(error));
        }
    }

    /// Looks at a flush that the host is working on: `completion` is the
    /// answer of the host, if it has answered. The flush is over when the
    /// host has answered or the engine has come to its end.
    pub fn flush(&self, encoded: &VideoEncoded, completion: Option<Result<(), HostError>>) -> (found:
        Next<()>)
        ensures
            found == awaited(completion, encoded@.channel.status),
    {
        await_host(completion, encoded.outputs.status())
    }

    /// Closes the encoder. The first call yields the engine, which the
    /// caller has to close on the host, and ends the output sequence in good
    /// order unless it has ended before; every later call does nothing.
    pub fn close(&mut self, encoded: &mut VideoEncoded) -> (engine: Option<E>)
        ensures
            engine == old(self).engine(),
            final(self).engine().is_none(),
            final(self).settings() == old(self).settings(),
            final(self).last_keyframe() == old(self).last_keyframe(),
            final(encoded)@ == if old(self).engine().is_some() {
                old(encoded)@.close()
            } else {
                old(encoded)@
            },
    {
        let engine = self.engine.release();
        if engine.is_some() {
            encoded.outputs.close();
        }
        engine
    }
}

/// What optional decoder settings hold.
pub open spec fn optional_config(config: Option<VideoDecoderConfig>) -> Option<
    VideoDecoderConfigView,
> {
    match config {
        Some(c) => Some(c@),
        None => None,
    }
}

/// Whether what a wait has found is, but for being a copy, what it had to
/// find.
pub open spec fn same_found(found: Next<VideoDecoderConfig>, expected: Next<VideoDecoderConfig>)
    -> bool {
    match (found, expected) {
        (Next::Output(a), Next::Output(b)) => a@ == b@,
        (Next::Pending, Next::Pending) => true,
        (Next::End, Next::End) => true,
        (Next::Failed(a), Next::Failed(b)) => a == b,
        _ => false,
    }
}

/// The outputs of a video encoder, to be read one unit at a time, and the
/// settings for a decoder of these units once the host has handed them out.
#[derive(Debug)]
pub struct VideoEncoded {
    outputs: EncodedQueue<VideoDecoderConfig>,
}

impl View for VideoEncoded {
    type V = EncodedView<VideoDecoderConfig>;

    closed spec fn view(&self) -> EncodedView<VideoDecoderConfig> {
        self.outputs@
    }
}

impl VideoEncoded {
    /// One read. The units come in the order in which the host put them
    /// out; after the last one comes the word on how the engine ended, and
    /// from then on nothing else.
    pub fn frame(&mut self) -> (found: Next<EncodedFrame>)
        ensures
            found == old(self)@.channel.next(),
            final(self)@ == old(self)@.after_frame(),
    {
        self.outputs.frame()
    }

    /// A copy of the decoder settings as far as they are known now: none
    /// before the host has handed any out.
    pub fn config(&self) -> (config: Option<VideoDecoderConfig>)
        ensures
            optional_config(config) == optional_config(self@.config),
    {
        match self.outputs.negotiated() {
            Some(c) => Some(c.clone()),
            None => None,
        }
    }

    /// One look of a wait for the decoder settings: a copy of them as soon
    /// as they are there, else the end of the engine where it has ended
    /// without them, else nothing yet.
    pub fn config_ready(&self) -> (found: Next<VideoDecoderConfig>)
        ensures
            same_found(found, self@.config_ready()),
    {
        match self.outputs.negotiated() {
            Some(c) => Next::Output(c.clone()),
            None => match self.outputs.status() {
                Status::Open => Next::Pending,
                Status::Closed => Next::End,
                Status::Failed(e) => Next::Failed(e),
            },
        }
    }

    /// The reader goes away. The units that it has not read are handed
    /// back, oldest first.
    pub fn detach(&mut self) -> (unread: VecDeque<EncodedFrame>)
        ensures
            final(self)@ == old(self)@.detach(),
            unread@ == old(self)@.channel.queue,
    {
        self.outputs.detach()
    }

    /// How many units wait to be read.
    pub fn len(&self) -> (n: usize)
        ensures
            n == self@.channel.queue.len(),
    {
        self.outputs.len()
    }
}

} // verus!
