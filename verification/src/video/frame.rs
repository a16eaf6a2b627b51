use vstd::prelude::*;
use crate::handle::Handle;
use crate::units::{Duration, Timestamp};
use super::dimensions::Dimensions;

verus! {

/// One decoded picture: a resource of the host, and what is known about it.
///
/// The frame owns the resource until it is released or leaked; what is known
/// about the picture stays readable after that.
#[derive(Debug)]
pub struct VideoFrame<R> {
    handle: Handle<R>,
    timestamp: Timestamp,
    duration: Option<Duration>,
    dimensions: Dimensions,
}

impl<R> VideoFrame<R> {
    /// The host resource that the frame still owns, if any.
    pub closed spec fn resource(&self) -> Option<R> {
        self.handle.resource()
    }

    /// When the picture is to be shown.
    pub closed spec fn shown_at(&self) -> Timestamp {
        self.timestamp
    }

    /// For how long the picture is to be shown, where the host says so.
    pub closed spec fn shown_for(&self) -> Option<Duration> {
        self.duration
    }

    /// The coded size of the picture.
    pub closed spec fn size(&self) -> Dimensions {
        self.dimensions
    }

    /// A frame around a picture that the host has handed over.
    pub fn new(
        resource: R,
        timestamp: Timestamp,
        duration: Option<Duration>,
        dimensions: Dimensions,
    ) -> (frame: VideoFrame<R>)
        ensures
            frame.resource() == Some(resource),
            frame.shown_at() == timestamp,
            frame.shown_for() == duration,
            frame.size() == dimensions,
    {
        VideoFrame { handle: Handle::new(resource), timestamp, duration, dimensions }
    }

    pub fn timestamp(&self) -> (timestamp: Timestamp)
        ensures
            timestamp == self.shown_at(),
    {
        self.timestamp
    }

    pub fn duration(&self) -> (duration: Option<Duration>)
        ensures
            duration == self.shown_for(),
    {
        self.duration
    }

    pub fn dimensions(&self) -> (dimensions: Dimensions)
        ensures
            dimensions == self.size(),
    {
        self.dimensions
    }

    /// The host resource, for a call that does not take it away.
    pub fn inner(&self) -> (resource: Option<&R>)
        ensures
            match resource {
                Some(r) => self.resource() == Some(*r),
                None => self.resource().is_none(),
            },
    {
        self.handle.get()
    }

    /// Takes the host resource out of the frame so that it can be closed.
    /// The first call yields it; every later call yields nothing.
    pub fn release(&mut self) -> (resource: Option<R>)
        ensures
            resource == old(self).resource(),
            final(self).resource().is_none(),
            final(self).shown_at() == old(self).shown_at(),
            final(self).shown_for() == old(self).shown_for(),
            final(self).size() == old(self).size(),
    {
        self.handle.release()
    }

    /// Hands the host resource to a caller who will close it on their own.
    pub fn leak(self) -> (resource: R)
        requires
            self.resource().is_some(),
        ensures
            self.resource() == Some(resource),
    {
        self.handle.leak()
    }
}

} // verus!
