use bytes::Bytes;
use std::collections::VecDeque;
use vstd::prelude::*;
use vstd::string::StringExecFns;
use crate::error::{Error, HostError};
use crate::frame::{EncodedFrame, HostChunk};
use crate::handle::Handle;
use crate::outputs::{await_host, awaited, Channel, Next, OutputQueue};
use crate::payload::{
    clone_optional, optional_bytes, optional_contents, optional_from_vec, optional_to_vec, to_vec,
};
use super::data::AudioData;

verus! {

/// The settings of an audio decoder.
#[derive(Debug, PartialEq, Eq)]
pub struct AudioDecoderConfig {
    /// The codec, as a MIME type string.
    pub codec: String,
    /// Bytes that some codecs need before the first unit.
    pub description: Option<Bytes>,
    pub channel_count: u32,
    /// Samples per second and channel.
    pub sample_rate: u32,
}

/// The settings of an audio decoder as contracts see them.
pub struct AudioDecoderConfigView {
    pub codec: Seq<char>,
    pub description: Option<Seq<u8>>,
    pub channel_count: u32,
    pub sample_rate: u32,
}

/// The settings of an audio decoder in the form in which the host takes and
/// gives them.
#[derive(Debug, PartialEq, Eq)]
pub struct HostAudioDecoderConfig {
    pub codec: String,
    pub number_of_channels: u32,
    pub sample_rate: u32,
    pub description: Option<Vec<u8>>,
}

/// The host's form of the settings as contracts see it.
pub struct HostAudioDecoderConfigView {
    pub codec: Seq<char>,
    pub number_of_channels: u32,
    pub sample_rate: u32,
    pub description: Option<Seq<u8>>,
}

impl View for AudioDecoderConfig {
    type V = AudioDecoderConfigView;

    open spec fn view(&self) -> AudioDecoderConfigView {
        AudioDecoderConfigView {
            codec: self.codec@,
            description: optional_contents(self.description),
            channel_count: self.channel_count,
            sample_rate: self.sample_rate,
        }
    }
}

impl View for HostAudioDecoderConfig {
    type V = HostAudioDecoderConfigView;

    open spec fn view(&self) -> HostAudioDecoderConfigView {
        HostAudioDecoderConfigView {
            codec: self.codec@,
            number_of_channels: self.number_of_channels,
            sample_rate: self.sample_rate,
            description: optional_bytes(self.description),
        }
    }
}

impl AudioDecoderConfigView {
    /// The settings in the host's form.
    pub open spec fn to_host(self) -> HostAudioDecoderConfigView {
        HostAudioDecoderConfigView {
            codec: self.codec,
            number_of_channels: self.channel_count,
            sample_rate: self.sample_rate,
            description: self.description,
        }
    }

    /// The settings that the host reports.
    pub open spec fn from_host(host: HostAudioDecoderConfigView) -> AudioDecoderConfigView {
        AudioDecoderConfigView {
            codec: host.codec,
            description: host.description,
            channel_count: host.number_of_channels,
            sample_rate: host.sample_rate,
        }
    }
}

/// Settings come back from the host's form as they went in, and the other
/// way round.
pub proof fn lemma_host_round_trip(config: AudioDecoderConfigView, host: HostAudioDecoderConfigView)
    ensures
        AudioDecoderConfigView::from_host(config.to_host()) == config,
        AudioDecoderConfigView::from_host(host).to_host() == host,
{
}

impl AudioDecoderConfig {
    /// Settings for `codec` with the given channels and sample rate, and no
    /// description.
    pub fn new(codec: &str, channel_count: u32, sample_rate: u32) -> (config: AudioDecoderConfig)
        ensures
            config@ == (AudioDecoderConfigView {
                codec: codec@,
                description: None,
                channel_count,
                sample_rate,
            }),
    {
        AudioDecoderConfig {
            codec: String::from_str(codec),
            description: None,
            channel_count,
            sample_rate,
        }
    }

    /// Reads the answer of the host to the question whether it supports
    /// these settings. That the host does not support them is an answer
    /// like any other; only a question that the host could not make sense
    /// of is an error.
    pub fn is_supported(&self, answer: Result<bool, HostError>) -> (r: Result<bool, Error>)
        ensures
            match answer {
                Ok(supported) => r == Ok::<bool, Error>(supported),
                Err(e) => r == Err::<bool, Error>(Error::Unknown(e)),
            },
    {
        match answer {
            Ok(supported) => Ok(supported),
            Err(e) => Err(Error::Unknown(e)),
        }
    }

    /// The settings in the form in which the host takes them.
    pub fn to_host(&self) -> (host: HostAudioDecoderConfig)
        ensures
            host@ == self@.to_host(),
    {
        HostAudioDecoderConfig {
            codec: self.codec.clone(),
            number_of_channels: self.channel_count,
            sample_rate: self.sample_rate,
            description: optional_to_vec(&self.description),
        }
    }

    /// The settings that the host reports, such as those that an encoder
    /// hands out for the decoder of its output.
    pub fn from_host(host: HostAudioDecoderConfig) -> (config: AudioDecoderConfig)
        ensures
            config@ == AudioDecoderConfigView::from_host(host@),
    {
        AudioDecoderConfig {
            codec: host.codec,
            description: optional_from_vec(host.description),
            channel_count: host.number_of_channels,
            sample_rate: host.sample_rate,
        }
    }

    /// Turns the settings into a decoder and the sequence of its outputs,
    /// once the host has made an engine and has been told the settings.
    ///
    /// `engine` is the host's engine and `configured` what the host
    /// answered to the settings. A refusal of the host is passed on and
    /// nothing is built; the engine is then dropped as it is.
    pub fn build<E, R>(self, engine: E, configured: Result<(), HostError>) -> (r: Result<
        (AudioDecoder<E>, AudioDecoded<R>),
        Error,
    >)
        ensures
            match configured {
                Ok(_) => r matches Ok((decoder, decoded)) && decoder.engine() == Some(engine)
                    && decoded@ == Channel::<AudioData<R>>::fresh(),
                Err(e) => r matches Err(error) && error == Error::Unknown(e),
            },
    {
        match configured {
            Ok(_) => Ok(
                (AudioDecoder { engine: Handle::new(engine) }, AudioDecoded {
                    frames: OutputQueue::new(),
                }),
            ),
            Err(e) => Err(Error::Unknown(e)),
        }
    }
}

impl Clone for AudioDecoderConfig {
    fn clone(&self) -> (config: AudioDecoderConfig)
        ensures
            config@ == self@,
    {
        AudioDecoderConfig {
            codec: self.codec.clone(),
            description: clone_optional(&self.description),
            channel_count: self.channel_count,
            sample_rate: self.sample_rate,
        }
    }
}

impl Default for AudioDecoderConfig {
    /// Settings with no codec, no channel and no description.
    fn default() -> (config: AudioDecoderConfig)
        ensures
            config@ == (AudioDecoderConfigView {
                codec: Seq::<char>::empty(),
                description: None,
                channel_count: 0,
                sample_rate: 0,
            }),
    {
        AudioDecoderConfig {
            codec: String::new(),
            description: None,
            channel_count: 0,
            sample_rate: 0,
        }
    }
}

/// An audio decoder: the owner of one decoding engine of the host.
///
/// The decoder decides; the caller talks to the host. Each method says what
/// the host has to be told, or takes what the host has said.
#[derive(Debug)]
pub struct AudioDecoder<E> {
    engine: Handle<E>,
}

impl<E> AudioDecoder<E> {
    /// The engine of the host, as long as the decoder has not been closed.
    pub closed spec fn engine(&self) -> Option<E> {
        self.engine.resource()
    }

    /// Whether the decoder has not been closed.
    pub fn is_open(&self) -> (open: bool)
        ensures
            open == self.engine().is_some(),
    {
        self.engine.is_open()
    }

    /// The engine of the host, for a call that does not take it away.
    pub fn host(&self) -> (engine: Option<&E>)
        ensures
            match engine {
                Some(e) => self.engine() == Some(*e),
                None => self.engine().is_none(),
            },
    {
        self.engine.get()
    }

    /// Prepares one encoded unit for the host: the chunk to submit, a key
    /// chunk where the unit is a keyframe and a delta chunk where it is not.
    pub fn decode(&self, frame: EncodedFrame) -> (chunk: HostChunk)
        ensures
            chunk.data@ == frame@.payload,
            chunk.timestamp == frame@.timestamp.micros(),
            chunk.kind is Key <==> frame@.keyframe,
    {
        HostChunk {
            data: to_vec(&frame.payload),
            timestamp: frame.timestamp.as_micros(),
            kind: frame.chunk_type(),
        }
    }

    /// The host has decoded a buffer. The buffer joins the output sequence,
    /// or is handed back to be released: when the decoder is closed nothing
    /// is taken any more, and neither is anything taken after the end of the
    /// engine or without a reader.
    pub fn on_output<R>(&self, decoded: &mut AudioDecoded<R>, data: AudioData<R>) -> (rejected:
        Option<AudioData<R>>)
        ensures
            final(decoded)@ == if self.engine().is_some() {
                old(decoded)@.push(data)
            } else {
                old(decoded)@
            },
            rejected == if self.engine().is_some() && old(decoded)@.accepts() {
                None
            } else {
                Some(data)
            },
    {
        if self.engine.is_open() {
            decoded.frames.push(data)
        } else {
            Some(data)
        }
    }

    /// The host has reported a failure. It ends the output sequence unless
    /// the sequence has ended before; a closed decoder takes no notice.
    pub fn on_error<R>(&self, decoded: &mut AudioDecoded<R>, error: HostError)
        ensures
            final(decoded)@ == if self.engine().is_some() {
                old(decoded)@.fail(Error::Unknown(error))
            } else {
                old(decoded)@
            },
    {
        if self.engine.is_open() {
            decoded.frames.fail(Error::Unknown(error));
        }
    }

    /// Looks at a flush that the host is working on: `completion` is the
    /// answer of the host, if it has answered. The flush is over when the
    /// host has answered or the engine has come to its end.
    pub fn flush<R>(
        &self,
        decoded: &AudioDecoded<R>,
        completion: Option<Result<(), HostError>>,
    ) -> (found: Next<()>)
        ensures
            found == awaited(completion, decoded@.status),
    {
        await_host(completion, decoded.frames.status())
    }

    /// Closes the decoder. The first call yields the engine, which the
    /// caller has to close on the host, and ends the output sequence in good
    /// order unless it has ended before; every later call does nothing.
    pub fn close<R>(&mut self, decoded: &mut AudioDecoded<R>) -> (engine: Option<E>)
        ensures
            engine == old(self).engine(),
            final(self).engine().is_none(),
            final(decoded)@ == if old(self).engine().is_some() {
                old(decoded)@.close()
            } else {
                old(decoded)@
            },
    {
        let engine = self.engine.release();
        if engine.is_some() {
            decoded.frames.close();
        }
        engine
    }
}

/// The outputs of an audio decoder, to be read one buffer at a time.
#[derive(Debug)]
pub struct AudioDecoded<R> {
    frames: OutputQueue<AudioData<R>>,
}

impl<R> View for AudioDecoded<R> {
    type V = Channel<AudioData<R>>;

    closed spec fn view(&self) -> Channel<AudioData<R>> {
        self.frames@
    }
}

impl<R> AudioDecoded<R> {
    /// One read. The buffers come in the order in which the host put them
    /// out; after the last one comes the word on how the engine ended, and
    /// from then on nothing else.
    pub fn next(&mut self) -> (found: Next<AudioData<R>>)
        ensures
            found == old(self)@.next(),
            final(self)@ == old(self)@.after_next(),
    {
        self.frames.next()
    }

    /// The reader goes away. The buffers that it has not read are handed
    /// back, oldest first, to be released.
    pub fn detach(&mut self) -> (unread: VecDeque<AudioData<R>>)
        ensures
            final(self)@ == old(self)@.detach(),
            unread@ == old(self)@.queue,
    {
        self.frames.detach()
    }

    /// How many buffers wait to be read.
    pub fn len(&self) -> (n: usize)
        ensures
            n == self@.queue.len(),
    {
        self.frames.len()
    }
}

} // verus!
