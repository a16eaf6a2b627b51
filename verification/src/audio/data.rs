use vstd::prelude::*;
use crate::error::Error;
use crate::handle::Handle;
use crate::units::{Duration, Timestamp};

verus! {

/// One buffer of decoded audio: a resource of the host, and what is known
/// about it.
///
/// The buffer owns the resource until it is released or leaked; what is
/// known about the audio stays readable after that.
#[derive(Debug)]
pub struct AudioData<R> {
    handle: Handle<R>,
    timestamp: Timestamp,
    duration: Duration,
    sample_rate: u32,
    number_of_frames: u32,
}

impl<R> AudioData<R> {
    /// The host resource that the buffer still owns, if any.
    pub closed spec fn resource(&self) -> Option<R> {
        self.handle.resource()
    }

    /// When the audio is to be played.
    pub closed spec fn played_at(&self) -> Timestamp {
        self.timestamp
    }

    /// For how long the audio plays.
    pub closed spec fn played_for(&self) -> Duration {
        self.duration
    }

    /// Samples per second and channel.
    pub closed spec fn rate(&self) -> u32 {
        self.sample_rate
    }

    /// Samples per channel.
    pub closed spec fn frames(&self) -> u32 {
        self.number_of_frames
    }

    /// A buffer around audio that the host has handed over.
    pub fn new(
        resource: R,
        timestamp: Timestamp,
        duration: Duration,
        sample_rate: u32,
        number_of_frames: u32,
    ) -> (data: AudioData<R>)
        ensures
            data.resource() == Some(resource),
            data.played_at() == timestamp,
            data.played_for() == duration,
            data.rate() == sample_rate,
            data.frames() == number_of_frames,
    {
        AudioData { handle: Handle::new(resource), timestamp, duration, sample_rate, number_of_frames }
    }

    pub fn timestamp(&self) -> (timestamp: Timestamp)
        ensures
            timestamp == self.played_at(),
    {
        self.timestamp
    }

    pub fn duration(&self) -> (duration: Duration)
        ensures
            duration == self.played_for(),
    {
        self.duration
    }

    pub fn sample_rate(&self) -> (sample_rate: u32)
        ensures
            sample_rate == self.rate(),
    {
        self.sample_rate
    }

    /// Samples per channel.
    pub fn number_of_frames(&self) -> (frames: u32)
        ensures
            frames == self.frames(),
    {
        self.number_of_frames
    }

    /// The host resource, for a call that does not take it away.
    pub fn inner(&self) -> (resource: Option<&R>)
        ensures
            match resource {
                Some(r) => self.resource() == Some(*r),
                None => self.resource().is_none(),
            },
    {
        self.handle.get()
    }

    /// Takes the host resource out of the buffer so that it can be closed.
    /// The first call yields it; every later call yields nothing.
    pub fn release(&mut self) -> (resource: Option<R>)
        ensures
            resource == old(self).resource(),
            final(self).resource().is_none(),
            final(self).played_at() == old(self).played_at(),
            final(self).played_for() == old(self).played_for(),
            final(self).rate() == old(self).rate(),
            final(self).frames() == old(self).frames(),
    {
        self.handle.release()
    }

    /// Hands the host resource to a caller who will close it on their own.
    pub fn leak(self) -> (resource: R)
        requires
            self.resource().is_some(),
        ensures
            self.resource() == Some(resource),
    {
        self.handle.leak()
    }

    /// By how many samples a destination grows when one channel of this
    /// buffer is appended to it under `options`.
    pub fn appended_frames(&self, options: &AudioCopyOptions) -> (grow: usize)
        requires
            options.frames_to_copy(self.frames()) >= 0,
        ensures
            grow == options.frames_to_copy(self.frames()),
    {
        let available: usize = match options.count {
            Some(count) => count,
            None => self.number_of_frames as usize,
        };
        available - options.offset
    }
}

/// Which part of one channel to copy out of an audio buffer.
#[derive(Debug, Clone, Copy, PartialEq, Eq, Structural)]
pub struct AudioCopyOptions {
    /// The first sample to copy.
    pub offset: usize,
    /// The sample behind the last one to copy; left open, the end of the
    /// channel.
    pub count: Option<usize>,
}

/// The part of one channel to copy, in the form in which the host takes it.
#[derive(Debug, Clone, Copy, PartialEq, Eq, Structural)]
pub struct HostCopyOptions {
    pub plane_index: u32,
    pub frame_offset: u32,
    pub frame_count: Option<u32>,
}

impl AudioCopyOptions {
    /// The number of samples that a copy under these options moves out of
    /// a channel of `frames` samples. Negative where the options start
    /// behind their end.
    pub open spec fn frames_to_copy(self, frames: u32) -> int {
        match self.count {
            Some(count) => count - self.offset,
            None => frames - self.offset,
        }
    }

    /// The options for `channel` in the host's form. The host takes numbers
    /// of 32 bits: of a larger number it is given the low 32 bits.
    pub fn to_host(&self, channel: usize) -> (host: HostCopyOptions)
        ensures
            host.plane_index == channel as u32,
            host.frame_offset == self.offset as u32,
            host.frame_count == match self.count {
                Some(count) => Some(count as u32),
                None => None,
            },
    {
        let frame_count = match self.count {
            Some(count) => Some(#[verifier::truncate] (count as u32)),
            None => None,
        };
        HostCopyOptions {
            plane_index: #[verifier::truncate] (channel as u32),
            frame_offset: #[verifier::truncate] (self.offset as u32),
            frame_count,
        }
    }
}

impl Default for AudioCopyOptions {
    /// The whole channel.
    fn default() -> (options: AudioCopyOptions)
        ensures
            options.offset == 0,
            options.count.is_none(),
    {
        AudioCopyOptions { offset: 0, count: None }
    }
}

/// How planes of samples lie in one buffer: channel after channel, each with
/// the same number of samples.
#[derive(Debug, Clone, Copy, PartialEq, Eq, Structural)]
pub struct PlanarLayout {
    pub channel_count: u32,
    /// Samples per channel.
    pub frame_count: u32,
    /// Samples in all channels together.
    pub total_samples: u32,
}

impl PlanarLayout {
    /// Whether the planes of the given lengths can lie in one buffer:
    /// they all have the length of the first, and together they have no more
    /// samples than a number of 32 bits can count.
    pub open spec fn fits(lengths: Seq<usize>) -> bool {
        &&& forall|i: int| 0 <= i < lengths.len() ==> #[trigger] lengths[i] == lengths[0]
        &&& lengths.len() > 0 ==> lengths.len() * lengths[0] <= u32::MAX
        &&& lengths.len() <= u32::MAX
    }

    /// The layout of planes of the given lengths, one length for each
    /// channel. Without a channel there is no layout.
    pub fn new(lengths: &Vec<usize>) -> (r: Result<PlanarLayout, Error>)
        requires
            PlanarLayout::fits(lengths@),
        ensures
            lengths@.len() == 0 <==> r is Err,
            r matches Err(e) ==> e == Error::NoChannels,
            r matches Ok(layout) ==> {
                &&& layout.channel_count == lengths@.len()
                &&& layout.frame_count == lengths@[0]
                &&& layout.total_samples == lengths@.len() * lengths@[0]
            },
    {
        if lengths.len() == 0 {
            return Err(Error::NoChannels);
        }
        let channel_count = lengths.len();
        let frame_count = lengths[0];
        assert(frame_count <= u32::MAX) by (nonlinear_arith)
            requires
                channel_count >= 1,
                channel_count * frame_count <= u32::MAX,
        ;
        let total_samples = channel_count * frame_count;
        Ok(
            PlanarLayout {
                channel_count: channel_count as u32,
                frame_count: frame_count as u32,
                total_samples: total_samples as u32,
            },
        )
    }

    /// Whether the layout is one that `new` can have made.
    pub open spec fn is_consistent(self) -> bool {
        self.total_samples == self.channel_count * self.frame_count
    }

    /// The index of the first sample of `channel` in the buffer.
    pub fn offset_of(&self, channel: u32) -> (offset: u32)
        requires
            self.is_consistent(),
            channel < self.channel_count,
        ensures
            offset == channel * self.frame_count,
            offset + self.frame_count <= self.total_samples,
    {
        assert(channel * self.frame_count + self.frame_count <= self.channel_count
            * self.frame_count) by (nonlinear_arith)
            requires
                channel < self.channel_count,
        ;
        channel * self.frame_count
    }
}

} // verus!
