use bytes::Bytes;
use vstd::prelude::*;
use vstd::string::StringExecFns;
use crate::error::{Error, HostError};
use crate::frame::{EncodedFrame, HostChunk};
use crate::handle::Handle;
use crate::outputs::{await_host, awaited, Channel, Next, OutputQueue};
use crate::payload::{
    clone_optional, optional_bytes, optional_contents, optional_from_vec, optional_to_vec, to_vec,
};
use std::collections::VecDeque;
use super::color::VideoColorSpaceConfig;
use super::dimensions::{optional_positive, required_positive, Dimensions};
use super::frame::VideoFrame;

verus! {

/// What the host is told about the use of hardware.
#[derive(Debug, Clone, Copy, PartialEq, Eq, Hash, Structural)]
pub enum HardwareAcceleration {
    NoPreference,
    PreferHardware,
    PreferSoftware,
}

/// The wish for hardware or software as the host is told it.
pub open spec fn hardware_wish(preferred: Option<bool>) -> Option<HardwareAcceleration> {
    match preferred {
        Some(true) => Some(HardwareAcceleration::PreferHardware),
        Some(false) => Some(HardwareAcceleration::PreferSoftware),
        None => None,
    }
}

/// The wish for hardware or software as the host reports it: a report of no
/// preference is no wish.
pub open spec fn hardware_preferred(wish: Option<HardwareAcceleration>) -> Option<bool> {
    match wish {
        Some(HardwareAcceleration::PreferHardware) => Some(true),
        Some(HardwareAcceleration::PreferSoftware) => Some(false),
        _ => None,
    }
}

/// The wish for hardware or software as the host is told it.
pub fn to_hardware_wish(preferred: Option<bool>) -> (wish: Option<HardwareAcceleration>)
    ensures
        wish == hardware_wish(preferred),
{
    match preferred {
        Some(true) => Some(HardwareAcceleration::PreferHardware),
        Some(false) => Some(HardwareAcceleration::PreferSoftware),
        None => None,
    }
}

/// The settings of a video decoder.
#[derive(Debug, PartialEq, Eq)]
pub struct VideoDecoderConfig {
    /// The codec, as a MIME type string.
    pub codec: String,
    /// The coded size of the pictures. Neither side may be zero.
    pub resolution: Option<Dimensions>,
    /// The size at which the pictures are to be shown. Neither side may be
    /// zero.
    pub display: Option<Dimensions>,
    pub color_space: Option<VideoColorSpaceConfig>,
    /// Bytes that some codecs need before the first unit, such as the
    /// parameter sets of H.264 in its AVC form.
    pub description: Option<Bytes>,
    /// Whether to ask for hardware (`true`) or software (`false`).
    pub hardware_acceleration: Option<bool>,
    /// Whether to trade quality for latency.
    pub latency_optimized: Option<bool>,
}

/// The settings of a video decoder as contracts see them.
pub struct VideoDecoderConfigView {
    pub codec: Seq<char>,
    pub resolution: Option<Dimensions>,
    pub display: Option<Dimensions>,
    pub color_space: Option<VideoColorSpaceConfig>,
    pub description: Option<Seq<u8>>,
    pub hardware_acceleration: Option<bool>,
    pub latency_optimized: Option<bool>,
}

/// The settings of a video decoder in the form in which the host takes and
/// gives them.
#[derive(Debug, PartialEq, Eq)]
pub struct HostVideoDecoderConfig {
    pub codec: String,
    pub coded_width: Option<u32>,
    pub coded_height: Option<u32>,
    pub display_aspect_width: Option<u32>,
    pub display_aspect_height: Option<u32>,
    pub color_space: Option<VideoColorSpaceConfig>,
    pub description: Option<Vec<u8>>,
    pub hardware_acceleration: Option<HardwareAcceleration>,
    pub optimize_for_latency: Option<bool>,
}

/// The host's form of the settings as contracts see it.
pub struct HostVideoDecoderConfigView {
    pub codec: Seq<char>,
    pub coded_width: Option<u32>,
    pub coded_height: Option<u32>,
    pub display_aspect_width: Option<u32>,
    pub display_aspect_height: Option<u32>,
    pub color_space: Option<VideoColorSpaceConfig>,
    pub description: Option<Seq<u8>>,
    pub hardware_acceleration: Option<HardwareAcceleration>,
    pub optimize_for_latency: Option<bool>,
}

impl View for HostVideoDecoderConfig {
    type V = HostVideoDecoderConfigView;

    open spec fn view(&self) -> HostVideoDecoderConfigView {
        HostVideoDecoderConfigView {
            codec: self.codec@,
            coded_width: self.coded_width,
            coded_height: self.coded_height,
            display_aspect_width: self.display_aspect_width,
            display_aspect_height: self.display_aspect_height,
            color_space: self.color_space,
            description: optional_bytes(self.description),
            hardware_acceleration: self.hardware_acceleration,
            optimize_for_latency: self.optimize_for_latency,
        }
    }
}

impl View for VideoDecoderConfig {
    type V = VideoDecoderConfigView;

    open spec fn view(&self) -> VideoDecoderConfigView {
        VideoDecoderConfigView {
            codec: self.codec@,
            resolution: self.resolution,
            display: self.display,
            color_space: self.color_space,
            description: optional_contents(self.description),
            hardware_acceleration: self.hardware_acceleration,
            latency_optimized: self.latency_optimized,
        }
    }
}

/// The width of a size that may be left out.
pub open spec fn width_of(size: Option<Dimensions>) -> Option<u32> {
    match size {
        Some(d) => Some(d.width),
        None => None,
    }
}

/// The height of a size that may be left out.
pub open spec fn height_of(size: Option<Dimensions>) -> Option<u32> {
    match size {
        Some(d) => Some(d.height),
        None => None,
    }
}

/// The size that the host reports by a width and a height: both have to be
/// there and neither may be zero, else no size is known.
pub open spec fn size_of(width: Option<u32>, height: Option<u32>) -> Option<Dimensions> {
    match (width, height) {
        (Some(w), Some(h)) => if w != 0 && h != 0 {
            Some(Dimensions { width: w, height: h })
        } else {
            None
        },
        _ => None,
    }
}

/// The size that the host reports by a width and a height: both have to be
/// there and neither may be zero, else no size is known.
pub fn to_size(width: Option<u32>, height: Option<u32>) -> (size: Option<Dimensions>)
    ensures
        size == size_of(width, height),
{
    match (width, height) {
        (Some(w), Some(h)) => if w != 0 && h != 0 {
            Some(Dimensions { width: w, height: h })
        } else {
            None
        },
        _ => None,
    }
}

impl VideoDecoderConfigView {
    /// Whether both sizes are there and have pixels.
    pub open spec fn is_valid(self) -> bool {
        required_positive(self.resolution) && required_positive(self.display)
    }

    /// The settings in the host's form.
    pub open spec fn to_host(self) -> HostVideoDecoderConfigView {
        HostVideoDecoderConfigView {
            codec: self.codec,
            coded_width: width_of(self.resolution),
            coded_height: height_of(self.resolution),
            display_aspect_width: width_of(self.display),
            display_aspect_height: height_of(self.display),
            color_space: self.color_space,
            description: self.description,
            hardware_acceleration: hardware_wish(self.hardware_acceleration),
            optimize_for_latency: self.latency_optimized,
        }
    }

    /// The settings that the host reports.
    pub open spec fn from_host(host: HostVideoDecoderConfigView) -> VideoDecoderConfigView {
        VideoDecoderConfigView {
            codec: host.codec,
            resolution: size_of(host.coded_width, host.coded_height),
            display: size_of(host.display_aspect_width, host.display_aspect_height),
            color_space: host.color_space,
            description: host.description,
            hardware_acceleration: hardware_preferred(host.hardware_acceleration),
            latency_optimized: host.optimize_for_latency,
        }
    }
}

/// Settings whose sizes have pixels where they are given come back from the
/// host's form as they went in.
pub proof fn lemma_host_round_trip(config: VideoDecoderConfigView)
    requires
        optional_positive(config.resolution),
        optional_positive(config.display),
    ensures
        VideoDecoderConfigView::from_host(config.to_host()) == config,
{
}

impl VideoDecoderConfig {
    /// Settings for `codec` with everything else left open.
    pub fn new(codec: &str) -> (config: VideoDecoderConfig)
        ensures
            config@ == (VideoDecoderConfigView {
                codec: codec@,
                resolution: None,
                display: None,
                color_space: None,
                description: None,
                hardware_acceleration: None,
                latency_optimized: None,
            }),
    {
        VideoDecoderConfig {
            codec: String::from_str(codec),
            resolution: None,
            display: None,
            color_space: None,
            description: None,
            hardware_acceleration: None,
            latency_optimized: None,
        }
    }

    /// Reads the answer of the host to the question whether it supports
    /// these settings. That the host does not support them is an answer
    /// like any other; only a question that the host could not make sense
    /// of is an error.
    pub fn is_supported(&self, answer: Result<bool, HostError>) -> (r: Result<bool, Error>)
        ensures
            match answer {
                Ok(supported) => r == Ok::<bool, Error>(supported),
                Err(e) => r == Err::<bool, Error>(Error::Unknown(e)),
            },
    {
        match answer {
            Ok(supported) => Ok(supported),
            Err(e) => Err(Error::Unknown(e)),
        }
    }

    /// Accepts the settings if both the coded size and the display size are
    /// given and neither has a side of zero.
    pub fn is_valid(&self) -> (r: Result<(), Error>)
        ensures
            r is Ok <==> self@.is_valid(),
            r is Err ==> r == Err::<(), Error>(Error::InvalidDimensions),
    {
        match self.resolution {
            Some(d) => {
                if d.width == 0 || d.height == 0 {
                    return Err(Error::InvalidDimensions);
                }
            },
            None => {
                return Err(Error::InvalidDimensions);
            },
        }
        match self.display {
            Some(d) => {
                if d.width == 0 || d.height == 0 {
                    return Err(Error::InvalidDimensions);
                }
            },
            None => {
                return Err(Error::InvalidDimensions);
            },
        }
        Ok(())
    }

    /// The settings in the form in which the host takes them.
    pub fn to_host(&self) -> (host: HostVideoDecoderConfig)
        ensures
            host@ == self@.to_host(),
    {
        let (coded_width, coded_height) = match self.resolution {
            Some(d) => (Some(d.width), Some(d.height)),
            None => (None, None),
        };
        let (display_aspect_width, display_aspect_height) = match self.display {
            Some(d) => (Some(d.width), Some(d.height)),
            None => (None, None),
        };
        HostVideoDecoderConfig {
            codec: self.codec.clone(),
            coded_width,
            coded_height,
            display_aspect_width,
            display_aspect_height,
            color_space: self.color_space,
            description: optional_to_vec(&self.description),
            hardware_acceleration: to_hardware_wish(self.hardware_acceleration),
            optimize_for_latency: self.latency_optimized,
        }
    }

    /// The settings that the host reports, such as those that an encoder
    /// hands out for the decoder of its output.
    pub fn from_host(host: HostVideoDecoderConfig) -> (config: VideoDecoderConfig)
        ensures
            config@ == VideoDecoderConfigView::from_host(host@),
    {
        let hardware_acceleration = match host.hardware_acceleration {
            Some(HardwareAcceleration::PreferHardware) => Some(true),
            Some(HardwareAcceleration::PreferSoftware) => Some(false),
            _ => None,
        };
        VideoDecoderConfig {
            codec: host.codec,
            resolution: to_size(host.coded_width, host.coded_height),
            display: to_size(host.display_aspect_width, host.display_aspect_height),
            color_space: host.color_space,
            description: optional_from_vec(host.description),
            hardware_acceleration,
            latency_optimized: host.optimize_for_latency,
        }
    }

    /// Turns the settings into a decoder and the sequence of its outputs,
    /// once the host has made an engine and has been told the settings.
    ///
    /// `engine` is the host's engine and `configured` what the host
    /// answered to the settings. A refusal of the host is passed on and
    /// nothing is built; the engine is then dropped as it is.
    pub fn build<E, R>(self, engine: E, configured: Result<(), HostError>) -> (r: Result<
        (VideoDecoder<E>, VideoDecoded<R>),
        Error,
    >)
        ensures
            match configured {
                Ok(_) => r matches Ok((decoder, decoded)) && decoder.engine() == Some(engine)
                    && decoded@ == Channel::<VideoFrame<R>>::fresh(),
                Err(e) => r matches Err(error) && error == Error::Unknown(e),
            },
    {
        match configured {
            Ok(_) => Ok(
                (VideoDecoder { engine: Handle::new(engine) }, VideoDecoded {
                    frames: OutputQueue::new(),
                }),
            ),
            Err(e) => Err(Error::Unknown(e)),
        }
    }
}

impl Clone for VideoDecoderConfig {
    fn clone(&self) -> (config: VideoDecoderConfig)
        ensures
            config@ == self@,
    {
        VideoDecoderConfig {
            codec: self.codec.clone(),
            resolution: self.resolution,
            display: self.display,
            color_space: self.color_space,
            description: clone_optional(&self.description),
            hardware_acceleration: self.hardware_acceleration,
            latency_optimized: self.latency_optimized,
        }
    }
}

impl Default for VideoDecoderConfig {
    /// Settings with no codec and everything else left open.
    fn default() -> (config: VideoDecoderConfig)
        ensures
            config@ == (VideoDecoderConfigView {
                codec: Seq::<char>::empty(),
                resolution: None,
                display: None,
                color_space: None,
                description: None,
                hardware_acceleration: None,
                latency_optimized: None,
            }),
    {
        VideoDecoderConfig {
            codec: String::new(),
            resolution: None,
            display: None,
            color_space: None,
            description: None,
            hardware_acceleration: None,
            latency_optimized: None,
        }
    }
}

/// A video decoder: the owner of one decoding engine of the host.
///
/// The decoder decides; the caller talks to the host. Each method says what
/// the host has to be told, or takes what the host has said.
#[derive(Debug)]
pub struct VideoDecoder<E> {
    engine: Handle<E>,
}

impl<E> VideoDecoder<E> {
    /// The engine of the host, as long as the decoder has not been closed.
    pub closed spec fn engine(&self) -> Option<E> {
        self.engine.resource()
    }

    /// Whether the decoder has not been closed.
    pub fn is_open(&self) -> (open: bool)
        ensures
            open == self.engine().is_some(),
    {
        self.engine.is_open()
    }

    /// The engine of the host, for a call that does not take it away.
    pub fn host(&self) -> (engine: Option<&E>)
        ensures
            match engine {
                Some(e) => self.engine() == Some(*e),
                None => self.engine().is_none(),
            },
    {
        self.engine.get()
    }

    /// Prepares one encoded unit for the host: the chunk to submit, a key
    /// chunk where the unit is a keyframe and a delta chunk where it is not.
    pub fn decode(&self, frame: EncodedFrame) -> (chunk: HostChunk)
        ensures
            chunk.data@ == frame@.payload,
            chunk.timestamp == frame@.timestamp.micros(),
            chunk.kind is Key <==> frame@.keyframe,
    {
        HostChunk {
            data: to_vec(&frame.payload),
            timestamp: frame.timestamp.as_micros(),
            kind: frame.chunk_type(),
        }
    }

    /// The host has decoded a frame. The frame joins the output sequence, or
    /// is handed back to be released: when the decoder is closed nothing is
    /// taken any more, and neither is anything taken after the end of the
    /// engine or without a reader.
    pub fn on_output<R>(&self, decoded: &mut VideoDecoded<R>, frame: VideoFrame<R>) -> (rejected:
        Option<VideoFrame<R>>)
        ensures
            final(decoded)@ == if self.engine().is_some() {
                old(decoded)@.push(frame)
            } else {
                old(decoded)@
            },
            rejected == if self.engine().is_some() && old(decoded)@.accepts() {
                None
            } else {
                Some(frame)
            },
    {
        if self.engine.is_open() {
            decoded.frames.push(frame)
        } else {
            Some(frame)
        }
    }

    /// The host has reported a failure. It ends the output sequence unless
    /// the sequence has ended before; a closed decoder takes no notice.
    pub fn on_error<R>(&self, decoded: &mut VideoDecoded<R>, error: HostError)
        ensures
            final(decoded)@ == if self.engine().is_some() {
                old(decoded)@.fail(Error::Unknown(error))
            } else {
                old(decoded)@
            },
    {
        if self.engine.is_open() {
            decoded.frames.fail(Error::Unknown(error));
        }
    }

    /// Looks at a flush that the host is working on: `completion` is the
    /// answer of the host, if it has answered. The flush is over when the
    /// host has answered or the engine has come to its end.
    pub fn flush<R>(&self, decoded: &VideoDecoded<R>, completion: Option<Result<(), HostError>>) -> (found: Next<()>)
        ensures
            found == awaited(completion, decoded@.status),
    {
        await_host(completion, decoded.frames.status())
    }

    /// Closes the decoder. The first call yields the engine, which the
    /// caller has to close on the host, and ends the output sequence in good
    /// order unless it has ended before; every later call does nothing.
    pub fn close<R>(&mut self, decoded: &mut VideoDecoded<R>) -> (engine: Option<E>)
        ensures
            engine == old(self).engine(),
            final(self).engine().is_none(),
            final(decoded)@ == if old(self).engine().is_some() {
                old(decoded)@.close()
            } else {
                old(decoded)@
            },
    {
        let engine = self.engine.release();
        if engine.is_some() {
            decoded.frames.close();
        }
        engine
    }
}

/// The outputs of a video decoder, to be read one frame at a time.
#[derive(Debug)]
pub struct VideoDecoded<R> {
    frames: OutputQueue<VideoFrame<R>>,
}

impl<R> View for VideoDecoded<R> {
    type V = Channel<VideoFrame<R>>;

    closed spec fn view(&self) -> Channel<VideoFrame<R>> {
        self.frames@
    }
}

impl<R> VideoDecoded<R> {
    /// One read. The frames come in the order in which the host put them
    /// out; after the last one comes the word on how the engine ended, and
    /// from then on nothing else.
    pub fn next(&mut self) -> (found: Next<VideoFrame<R>>)
        ensures
            found == old(self)@.next(),
            final(self)@ == old(self)@.after_next(),
    {
        self.frames.next()
    }

    /// The reader goes away. The frames that it has not read are handed
    /// back, oldest first, to be released.
    pub fn detach(&mut self) -> (unread: VecDeque<VideoFrame<R>>)
        ensures
            final(self)@ == old(self)@.detach(),
            unread@ == old(self)@.queue,
    {
        self.frames.detach()
    }

    /// How many frames wait to be read.
    pub fn len(&self) -> (n: usize)
        ensures
            n == self@.queue.len(),
    {
        self.frames.len()
    }
}

} // verus!
