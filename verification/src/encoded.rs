//! The outputs of an encoder: the sequence of encoded units, and beside it
//! the settings for a decoder of these units, which the host hands out with
//! one of the units.
use std::collections::VecDeque;
use vstd::prelude::*;
use crate::error::Error;
use crate::frame::EncodedFrame;
use crate::outputs::{Channel, Next, OutputQueue, Status};

verus! {

/// The outputs of an encoder as contracts see them. `C` is the type of the
/// decoder settings.
pub struct EncodedView<C> {
    /// The encoded units and the word on how the engine ended.
    pub channel: Channel<EncodedFrame>,
    /// The settings for a decoder of the units, once the host has handed
    /// them out.
    pub config: Option<C>,
}

impl<C> EncodedView<C> {
    /// The outputs of an encoder that has just been built.
    pub open spec fn fresh() -> EncodedView<C> {
        EncodedView { channel: Channel::fresh(), config: None }
    }

    /// The host puts out a unit, with or without settings for the decoder.
    /// New settings replace the old ones as a whole.
    pub open spec fn deliver(self, frame: EncodedFrame, config: Option<C>) -> EncodedView<C> {
        EncodedView {
            channel: self.channel.push(frame),
            config: match config {
                Some(c) => Some(c),
                None => self.config,
            },
        }
    }

    /// The engine fails.
    pub open spec fn fail(self, error: Error) -> EncodedView<C> {
        EncodedView { channel: self.channel.fail(error), ..self }
    }

    /// The engine is closed in good order.
    pub open spec fn close(self) -> EncodedView<C> {
        EncodedView { channel: self.channel.close(), ..self }
    }

    /// The reader goes away.
    pub open spec fn detach(self) -> EncodedView<C> {
        EncodedView { channel: self.channel.detach(), ..self }
    }

    /// The outputs after one read of a unit.
    pub open spec fn after_frame(self) -> EncodedView<C> {
        EncodedView { channel: self.channel.after_next(), ..self }
    }

    /// What a wait for the decoder settings finds: the settings as soon as
    /// they are there, else the end of the engine where it has ended
    /// without them, else nothing yet.
    pub open spec fn config_ready(self) -> Next<C> {
        match self.config {
            Some(c) => Next::Output(c),
            None => match self.channel.status {
                Status::Open => Next::Pending,
                Status::Closed => Next::End,
                Status::Failed(e) => Next::Failed(e),
            },
        }
    }
}

/// Before the host has put out anything, no decoder settings are known and a
/// wait for them finds nothing yet. Once the host has handed settings out
/// with a unit, they are known and a wait finds them at once, also after
/// later units that bring none. Settings that come later replace them.
pub proof fn lemma_decoder_config_negotiation<C>(
    encoded: EncodedView<C>,
    first: EncodedFrame,
    config: C,
    later: EncodedFrame,
    newer: C,
)
    ensures
        EncodedView::<C>::fresh().config.is_none(),
        EncodedView::<C>::fresh().config_ready() is Pending,
        encoded.deliver(first, Some(config)).config == Some(config),
        encoded.deliver(first, Some(config)).config_ready() == Next::Output(config),
        encoded.deliver(first, Some(config)).deliver(later, None).config == Some(config),
        encoded.deliver(first, Some(config)).deliver(later, None).config_ready() == Next::Output(
            config,
        ),
        encoded.deliver(first, Some(config)).deliver(later, Some(newer)).config == Some(newer),
        encoded.deliver(first, None).config == encoded.config,
{
}

/// Settings that are known stay known: neither a read, nor a failure, nor
/// the end of the engine, nor the loss of the reader takes them away.
pub proof fn lemma_decoder_config_stays<C>(encoded: EncodedView<C>, error: Error)
    ensures
        encoded.after_frame().config == encoded.config,
        encoded.fail(error).config == encoded.config,
        encoded.close().config == encoded.config,
        encoded.detach().config == encoded.config,
{
}

/// A wait for decoder settings that never came ends with the engine: once
/// the engine has come to its end without them, the wait finds that end and
/// does not go on.
pub proof fn lemma_config_wait_ends<C>(encoded: EncodedView<C>)
    requires
        encoded.config.is_none(),
        encoded.channel.status.is_terminal(),
    ensures
        !(encoded.config_ready() is Pending),
        !(encoded.config_ready() is Output),
{
}

/// The outputs of an encoder: the units to be read one at a time, and the
/// settings for a decoder of these units once the host has handed them out.
#[derive(Debug)]
pub struct EncodedQueue<C> {
    frames: OutputQueue<EncodedFrame>,
    config: Option<C>,
}

impl<C> View for EncodedQueue<C> {
    type V = EncodedView<C>;

    closed spec fn view(&self) -> EncodedView<C> {
        EncodedView { channel: self.frames@, config: self.config }
    }
}

impl<C> EncodedQueue<C> {
    pub fn new() -> (q: EncodedQueue<C>)
        ensures
            q@ == EncodedView::<C>::fresh(),
    {
        EncodedQueue { frames: OutputQueue::new(), config: None }
    }

    /// Takes one unit from the host, with the decoder settings where the
    /// host hands them out. Tells whether the unit was kept for the reader;
    /// the settings are kept in any case.
    pub fn deliver(&mut self, frame: EncodedFrame, config: Option<C>) -> (kept: bool)
        ensures
            final(self)@ == old(self)@.deliver(frame, config),
            kept == old(self)@.channel.accepts(),
    {
        if let Some(c) = config {
            self.config = Some(c);
        }
        let rejected = self.frames.push(frame);
        rejected.is_none()
    }

    /// Records that the engine failed, unless its end is on record already.
    pub fn fail(&mut self, error: Error)
        ensures
            final(self)@ == old(self)@.fail(error),
    {
        self.frames.fail(error);
    }

    /// Records that the engine was closed in good order, unless its end is
    /// on record already.
    pub fn close(&mut self)
        ensures
            final(self)@ == old(self)@.close(),
    {
        self.frames.close();
    }

    /// The reader goes away. The units that it has not read are handed
    /// back, oldest first.
    pub fn detach(&mut self) -> (unread: VecDeque<EncodedFrame>)
        ensures
            final(self)@ == old(self)@.detach(),
            unread@ == old(self)@.channel.queue,
    {
        self.frames.detach()
    }

    /// One read of a unit. It never waits: where nothing is ready it says so.
    pub fn frame(&mut self) -> (found: Next<EncodedFrame>)
        ensures
            found == old(self)@.channel.next(),
            final(self)@ == old(self)@.after_frame(),
    {
        self.frames.next()
    }

    /// The decoder settings as far as they are known now.
    pub fn negotiated(&self) -> (config: Option<&C>)
        ensures
            match config {
                Some(c) => self@.config == Some(*c),
                None => self@.config.is_none(),
            },
    {
        self.config.as_ref()
    }

    /// A copy of the word on how the engine ended.
    pub fn status(&self) -> (status: Status)
        ensures
            status == self@.channel.status,
    {
        self.frames.status()
    }

    /// How many units wait to be read.
    pub fn len(&self) -> (n: usize)
        ensures
            n == self@.channel.queue.len(),
    {
        self.frames.len()
    }
}

} // verus!
