use vstd::prelude::*;
use crate::error::{Error, HostError};
use super::Settled;

verus! {

/// What the host handed out for one read of a stream of bytes.
#[derive(Debug, Clone, Copy, PartialEq, Eq, Structural)]
pub enum ChunkKind {
    /// The stream is at its end.
    Done,
    /// A chunk of this many bytes.
    Data(u32),
    /// Something that is no chunk of bytes.
    Other,
}

/// What the caller has to do after a look at a read of bytes.
#[derive(Debug, Clone, Copy, PartialEq, Eq, Structural)]
pub enum ReadAction {
    /// Wait for the host.
    Wait,
    /// Report the end of the stream: nothing is filled in.
    Eof,
    /// Copy the first `take` bytes of the chunk into the buffer. Where
    /// `leftover` is set, the chunk holds more than the buffer takes: its
    /// bytes from `take` on have to come back as the next read.
    Fill { take: u32, leftover: bool },
    /// Report that the stream does not carry bytes.
    Unsupported,
    /// Report that the read failed.
    Failed,
}

/// How many bytes of a chunk go into a buffer with `remaining` free bytes:
/// all that fit.
pub open spec fn taken(len: u32, remaining: usize) -> u32 {
    if len <= remaining {
        len
    } else {
        remaining as u32
    }
}

/// The reader of a host stream, as far as it decides anything: it keeps the
/// read that the host is working on, so that a caller who gave up waiting
/// finds the same read again and no chunk is lost.
///
/// `P` is the read in flight as the host hands it out.
#[derive(Debug)]
pub struct Reader<P> {
    read: Option<P>,
}

impl<P> Reader<P> {
    /// The read that the host is working on, if any.
    pub closed spec fn in_flight(&self) -> Option<P> {
        self.read
    }

    /// A reader with no read in flight.
    pub fn new() -> (reader: Reader<P>)
        ensures
            reader.in_flight().is_none(),
    {
        Reader { read: None }
    }

    /// Whether no read is in flight, so that a read has to begin with a new
    /// one.
    pub fn is_idle(&self) -> (idle: bool)
        ensures
            idle == self.in_flight().is_none(),
    {
        self.read.is_none()
    }

    /// Keeps a read that the host has just begun, unless one is in flight
    /// already: then that one stays and the new one is handed back.
    pub fn begin(&mut self, read: P) -> (refused: Option<P>)
        ensures
            final(self).in_flight() == match old(self).in_flight() {
                Some(p) => Some(p),
                None => Some(read),
            },
            refused == match old(self).in_flight() {
                Some(_) => Some(read),
                None => None,
            },
    {
        if self.read.is_some() {
            Some(read)
        } else {
            self.read = Some(read);
            None
        }
    }

    /// The read in flight, to look at it.
    pub fn pending(&mut self) -> (read: Option<&mut P>)
        ensures
            match old(self).in_flight() {
                None => final(self).in_flight().is_none() && read.is_none(),
                Some(p) => read.is_some() && *read.unwrap() == p && final(self).in_flight()
                    == Some(*final(read.unwrap())),
            },
    {
        self.read.as_mut()
    }

    /// Takes the answer of the host to the read in flight: the value that
    /// was read, or nothing at the end of the stream. After an answer no
    /// read is in flight; a read that failed stays, and fails again.
    pub fn read<T>(&mut self, answer: Result<Option<T>, HostError>) -> (r: Result<Option<T>, Error>)
        ensures
            match answer {
                Ok(value) => r == Ok::<Option<T>, Error>(value) && final(self).in_flight().is_none(),
                Err(e) => r == Err::<Option<T>, Error>(Error::Unknown(e)) && final(self).in_flight()
                    == old(self).in_flight(),
            },
    {
        match answer {
            Ok(value) => {
                self.read = None;
                Ok(value)
            },
            Err(e) => Err(Error::Unknown(e)),
        }
    }

    /// Takes a look at the read in flight on behalf of a caller with a
    /// buffer of `remaining` free bytes, and says what to do.
    ///
    /// As long as the host has not answered, the read stays in flight.
    /// Every answer ends it. A chunk goes into the buffer as far as it
    /// fits; what does not fit is not lost: the caller has to begin a read
    /// that is answered by the rest.
    pub fn poll_read(&mut self, polled: Settled<ChunkKind>, remaining: usize) -> (action: ReadAction)
        ensures
            final(self).in_flight() == if polled is Pending {
                old(self).in_flight()
            } else {
                None
            },
            action == match polled {
                Settled::Pending => ReadAction::Wait,
                Settled::Fulfilled(ChunkKind::Done) => ReadAction::Eof,
                Settled::Fulfilled(ChunkKind::Data(len)) => ReadAction::Fill {
                    take: taken(len, remaining),
                    leftover: taken(len, remaining) < len,
                },
                Settled::Fulfilled(ChunkKind::Other) => ReadAction::Unsupported,
                Settled::Rejected(_) => ReadAction::Failed,
            },
    {
        match polled {
            Settled::Pending => ReadAction::Wait,
            Settled::Fulfilled(kind) => {
                self.read = None;
                match kind {
                    ChunkKind::Done => ReadAction::Eof,
                    ChunkKind::Data(len) => {
                        let take: u32 = if len as usize <= remaining {
                            len
                        } else {
                            remaining as u32
                        };
                        ReadAction::Fill { take, leftover: take < len }
                    },
                    ChunkKind::Other => ReadAction::Unsupported,
                }
            },
            Settled::Rejected(_) => {
                self.read = None;
                ReadAction::Failed
            },
        }
    }
}

/// A chunk is split without loss: what goes into the buffer fits into it,
/// and together with what is left over it is the whole chunk. Nothing is
/// left over exactly when the whole chunk fits.
pub proof fn lemma_chunk_split(len: u32, remaining: usize)
    ensures
        taken(len, remaining) <= remaining,
        taken(len, remaining) <= len,
        taken(len, remaining) + (len - taken(len, remaining)) == len,
        taken(len, remaining) == len <==> len <= remaining,
        remaining > 0 && len > 0 ==> taken(len, remaining) > 0,
{
}

} // verus!
