use std::collections::VecDeque;
use vstd::prelude::*;
use vstd::string::StringExecFns;
use crate::encoded::{EncodedQueue, EncodedView};
use crate::error::{Error, HostError};
use crate::frame::EncodedFrame;
use crate::handle::Handle;
use crate::outputs::{await_host, awaited, Next, Status};
use super::data::AudioData;
use super::decoder::{AudioDecoderConfig, AudioDecoderConfigView};

verus! {

/// The settings of an audio encoder.
#[derive(Debug, PartialEq, Eq)]
pub struct AudioEncoderConfig {
    /// The codec, as a MIME type string.
    pub codec: String,
    pub channel_count: Option<u32>,
    /// Samples per second and channel.
    pub sample_rate: Option<u32>,
    /// Bits per second.
    pub bitrate: Option<u32>,
}

/// The settings of an audio encoder as contracts see them.
pub struct AudioEncoderConfigView {
    pub codec: Seq<char>,
    pub channel_count: Option<u32>,
    pub sample_rate: Option<u32>,
    pub bitrate: Option<u32>,
}

/// The settings of an audio encoder in the form in which the host takes
/// them.
#[derive(Debug, PartialEq, Eq)]
pub struct HostAudioEncoderConfig {
    pub codec: String,
    pub number_of_channels: Option<u32>,
    pub sample_rate: Option<u32>,
    pub bitrate: Option<u32>,
}

impl View for AudioEncoderConfig {
    type V = AudioEncoderConfigView;

    open spec fn view(&self) -> AudioEncoderConfigView {
        AudioEncoderConfigView {
            codec: self.codec@,
            channel_count: self.channel_count,
            sample_rate: self.sample_rate,
            bitrate: self.bitrate,
        }
    }
}

impl AudioEncoderConfig {
    /// Settings for `codec` with everything else left open.
    pub fn new(codec: &str) -> (config: AudioEncoderConfig)
        ensures
            config@ == (AudioEncoderConfigView {
                codec: codec@,
                channel_count: None,
                sample_rate: None,
                bitrate: None,
            }),
    {
        AudioEncoderConfig {
            codec: String::from_str(codec),
            channel_count: None,
            sample_rate: None,
            bitrate: None,
        }
    }

    /// Reads the answer of the host to the question whether it supports
    /// these settings. That the host does not support them is an answer
    /// like any other; only a question that the host could not make sense
    /// of is an error.
    pub fn is_supported(&self, answer: Result<bool, HostError>) -> (r: Result<bool, Error>)
        ensures
            match answer {
                Ok(supported) => r == Ok::<bool, Error>(supported),
                Err(e) => r == Err::<bool, Error>(Error::Unknown(e)),
            },
    {
        match answer {
            Ok(supported) => Ok(supported),
            Err(e) => Err(Error::Unknown(e)),
        }
    }

    /// The settings in the form in which the host takes them.
    pub fn to_host(&self) -> (host: HostAudioEncoderConfig)
        ensures
            host.codec@ == self@.codec,
            host.number_of_channels == self@.channel_count,
            host.sample_rate == self@.sample_rate,
            host.bitrate == self@.bitrate,
    {
        HostAudioEncoderConfig {
            codec: self.codec.clone(),
            number_of_channels: self.channel_count,
            sample_rate: self.sample_rate,
            bitrate: self.bitrate,
        }
    }

    /// Turns the settings into an encoder and the sequence of its outputs,
    /// once the host has made an engine and has been told the settings.
    ///
    /// `engine` is the host's engine and `configured` what the host
    /// answered to the settings. A refusal of the host is passed on and
    /// nothing is built; the engine is then dropped as it is.
    pub fn init<E>(self, engine: E, configured: Result<(), HostError>) -> (r: Result<
        (AudioEncoder<E>, AudioEncoded),
        Error,
    >)
        ensures
            match configured {
                Ok(_) => r matches Ok((encoder, encoded)) && encoder.engine() == Some(engine)
                    && encoder.settings() == self && encoded@ == EncodedView::<
                    AudioDecoderConfig,
                >::fresh(),
                Err(e) => r matches Err(error) && error == Error::Unknown(e),
            },
    {
        match configured {
            Ok(_) => Ok(
                (
                    AudioEncoder { engine: Handle::new(engine), config: self },
                    AudioEncoded { outputs: EncodedQueue::new() },
                ),
            ),
            Err(e) => Err(Error::Unknown(e)),
        }
    }
}

impl Clone for AudioEncoderConfig {
    fn clone(&self) -> (config: AudioEncoderConfig)
        ensures
            config == *self,
    {
        AudioEncoderConfig {
            codec: self.codec.clone(),
            channel_count: self.channel_count,
            sample_rate: self.sample_rate,
            bitrate: self.bitrate,
        }
    }
}

impl Default for AudioEncoderConfig {
    /// Settings with no codec and everything else left open.
    fn default() -> (config: AudioEncoderConfig)
        ensures
            config@ == (AudioEncoderConfigView {
                codec: Seq::<char>::empty(),
                channel_count: None,
                sample_rate: None,
                bitrate: None,
            }),
    {
        AudioEncoderConfig {
            codec: String::new(),
            channel_count: None,
            sample_rate: None,
            bitrate: None,
        }
    }
}

/// An audio encoder: the owner of one encoding engine of the host, and its
/// settings.
///
/// The encoder decides; the caller talks to the host. Each method says what
/// the host has to be told, or takes what the host has said.
#[derive(Debug)]
pub struct AudioEncoder<E> {
    engine: Handle<E>,
    config: AudioEncoderConfig,
}

impl<E> AudioEncoder<E> {
    /// The engine of the host, as long as the encoder has not been closed.
    pub closed spec fn engine(&self) -> Option<E> {
        self.engine.resource()
    }

    /// The settings that the encoder was made with.
    pub closed spec fn settings(&self) -> AudioEncoderConfig {
        self.config
    }

    /// Whether the encoder has not been closed.
    pub fn is_open(&self) -> (open: bool)
        ensures
            open == self.engine().is_some(),
    {
        self.engine.is_open()
    }

    /// The engine of the host, for a call that does not take it away.
    pub fn host(&self) -> (engine: Option<&E>)
        ensures
            match engine {
                Some(e) => self.engine() == Some(*e),
                None => self.engine().is_none(),
            },
    {
        self.engine.get()
    }

    pub fn config(&self) -> (config: &AudioEncoderConfig)
        ensures
            *config == self.settings(),
    {
        &self.config
    }

    /// Prepares one buffer for the host: the resource to submit, which the
    /// buffer keeps. Nothing where the buffer has given its resource away.
    pub fn encode<'a, R>(&mut self, data: &'a AudioData<R>) -> (resource: Option<&'a R>)
        ensures
            match resource {
                Some(r) => data.resource() == Some(*r),
                None => data.resource().is_none(),
            },
            final(self).engine() == old(self).engine(),
            final(self).settings() == old(self).settings(),
    {
        data.inner()
    }

    /// The host has put out an encoded unit, with the settings for its
    /// decoder where the host hands them out.
    ///
    /// The settings replace those on record and the unit joins the output
    /// sequence. Tells whether the unit was kept: it is discarded after the
    /// end of the engine and without a reader. A closed encoder takes no
    /// notice at all.
    pub fn on_output(
        &self,
        encoded: &mut AudioEncoded,
        frame: EncodedFrame,
        decoder_config: Option<AudioDecoderConfig>,
    ) -> (kept: bool)
        ensures
            self.engine().is_some() ==> {
                &&& final(encoded)@ == old(encoded)@.deliver(frame, decoder_config)
                &&& kept == old(encoded)@.channel.accepts()
            },
            self.engine().is_none() ==> {
                &&& final(encoded)@ == old(encoded)@
                &&& !kept
            },
    {
        if !self.engine.is_open() {
            return false;
        }
        encoded.outputs.deliver(frame, decoder_config)
    }

    /// The host has reported a failure. It ends the output sequence unless
    /// the sequence has ended before; a closed encoder takes no notice.
    pub fn on_error(&self, encoded: &mut AudioEncoded, error: HostError)
        ensures
            final(encoded)@ == if self.engine().is_some() {
                old(encoded)@.fail(Error::Unknown(error))
            } else {
                old(encoded)@
            },
    {
        if self.engine.is_open() {
            encoded.outputs.fail(Error::Unknown(error));
        }
    }

    /// Looks at a flush that the host is working on: `completion` is the
    /// answer of the host, if it has answered. The flush is over when the
    /// host has answered or the engine has come to its end.
    pub fn flush(&self, encoded: &AudioEncoded, completion: Option<Result<(), HostError>>) -> (found:
        Next<()>)
        ensures
            found == awaited(completion, encoded@.channel.status),
    {
        await_host(completion, encoded.outputs.status())
    }

    /// Closes the encoder. The first call yields the engine, which the
    /// caller has to close on the host, and ends the output sequence in good
    /// order unless it has ended before; every later call does nothing.
    pub fn close(&mut self, encoded: &mut AudioEncoded) -> (engine: Option<E>)
        ensures
            engine == old(self).engine(),
            final(self).engine().is_none(),
            final(self).settings() == old(self).settings(),
            final(encoded)@ == if old(self).engine().is_some() {
                old(encoded)@.close()
            } else {
                old(encoded)@
            },
    {
        let engine = self.engine.release();
        if engine.is_some() {
            encoded.outputs.close();
        }
        engine
    }
}

/// What optional decoder settings hold.
pub open spec fn optional_config(config: Option<AudioDecoderConfig>) -> Option<
    AudioDecoderConfigView,
> {
    match config {
        Some(c) => Some(c@),
        None => None,
    }
}

/// Whether what a wait has found is, but for being a copy, what it had to
/// find.
pub open spec fn same_found(found: Next<AudioDecoderConfig>, expected: Next<AudioDecoderConfig>)
    -> bool {
    match (found, expected) {
        (Next::Output(a), Next::Output(b)) => a@ == b@,
        (Next::Pending, Next::Pending) => true,
        (Next::End, Next::End) => true,
        (Next::Failed(a), Next::Failed(b)) => a == b,
        _ => false,
    }
}

/// The outputs of an audio encoder, to be read one unit at a time, and the
/// settings for a decoder of these units once the host has handed them out.
#[derive(Debug)]
pub struct AudioEncoded {
    outputs: EncodedQueue<AudioDecoderConfig>,
}

impl View for AudioEncoded {
    type V = EncodedView<AudioDecoderConfig>;

    closed spec fn view(&self) -> EncodedView<AudioDecoderConfig> {
        self.outputs@
    }
}

impl AudioEncoded {
    /// One read. The units come in the order in which the host put them
    /// out; after the last one comes the word on how the engine ended, and
    /// from then on nothing else.
    pub fn frame(&mut self) -> (found: Next<EncodedFrame>)
        ensures
            found == old(self)@.channel.next(),
            final(self)@ == old(self)@.after_frame(),
    {
        self.outputs.frame()
    }

    /// A copy of the decoder settings as far as they are known now: none
    /// before the host has handed any out.
    pub fn config(&self) -> (config: Option<AudioDecoderConfig>)
        ensures
            optional_config(config) == optional_config(self@.config),
    {
        match self.outputs.negotiated() {
            Some(c) => Some(c.clone()),
            None => None,
        }
    }

    /// One look of a wait for the decoder settings: a copy of them as soon
    /// as they are there, else the end of the engine where it has ended
    /// without them, else nothing yet.
    pub fn config_ready(&self) -> (found: Next<AudioDecoderConfig>)
        ensures
            same_found(found, self@.config_ready()),
    {
        match self.outputs.negotiated() {
            Some(c) => Next::Output(c.clone()),
            None => match self.outputs.status() {
                Status::Open => Next::Pending,
                Status::Closed => Next::End,
                Status::Failed(e) => Next::Failed(e),
            },
        }
    }

    /// The reader goes away. The units that it has not read are handed
    /// back, oldest first.
    pub fn detach(&mut self) -> (unread: VecDeque<EncodedFrame>)
        ensures
            final(self)@ == old(self)@.detach(),
            unread@ == old(self)@.channel.queue,
    {
        self.outputs.detach()
    }

    /// How many units wait to be read.
    pub fn len(&self) -> (n: usize)
        ensures
            n == self@.channel.queue.len(),
    {
        self.outputs.len()
    }
}

} // verus!
