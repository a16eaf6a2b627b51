use vstd::prelude::*;
use crate::error::{Error, HostError};
use super::Settled;

verus! {

/// What the host says about the room in a stream that is written to.
#[derive(Debug, Clone, Copy, PartialEq, Eq, Structural)]
pub enum Room {
    /// The stream is closed, cannot be written to, or is about to be
    /// aborted.
    Closed,
    /// The stream is open and wants nothing more for now.
    Full,
    /// The stream is open and wants more.
    Free,
}

/// What the caller has to do after a look at a writer.
#[derive(Debug, PartialEq, Eq)]
pub enum WriteAction {
    /// Wait for the host.
    Wait,
    /// Report success with nothing to do.
    Done,
    /// Hand the bytes to the host, keep the write in flight, and report
    /// that all of them were written.
    Submit,
    /// Report that the stream is closed.
    BrokenPipe,
    /// Report that the write before this one failed.
    Failed(HostError),
}

/// The writer of a host stream, as far as it decides anything: it keeps the
/// write that the host is working on.
///
/// `P` is the write in flight as the host hands it out.
#[derive(Debug)]
pub struct TypedWriter<P> {
    write: Option<P>,
}

impl<P> TypedWriter<P> {
    /// The write that the host is working on, if any.
    pub closed spec fn in_flight(&self) -> Option<P> {
        self.write
    }

    /// A writer with no write in flight.
    pub fn new() -> (writer: TypedWriter<P>)
        ensures
            writer.in_flight().is_none(),
    {
        TypedWriter { write: None }
    }

    /// Whether no write is in flight.
    pub fn is_idle(&self) -> (idle: bool)
        ensures
            idle == self.in_flight().is_none(),
    {
        self.write.is_none()
    }

    /// Keeps a write that the host has just begun. It takes the place of
    /// the one in flight, which is handed back.
    pub fn begin(&mut self, write: P) -> (before: Option<P>)
        ensures
            final(self).in_flight() == Some(write),
            before == old(self).in_flight(),
    {
        let before = self.write.take();
        self.write = Some(write);
        before
    }

    /// The write in flight, to look at it.
    pub fn pending(&mut self) -> (write: Option<&mut P>)
        ensures
            match old(self).in_flight() {
                None => final(self).in_flight().is_none() && write.is_none(),
                Some(p) => write.is_some() && *write.unwrap() == p && final(self).in_flight()
                    == Some(*final(write.unwrap())),
            },
    {
        self.write.as_mut()
    }

    /// Takes the write in flight out of the writer, to wait for it.
    pub fn take(&mut self) -> (write: Option<P>)
        ensures
            write == old(self).in_flight(),
            final(self).in_flight().is_none(),
    {
        self.write.take()
    }

    /// Takes the answer of the host to a write that the caller has waited
    /// for.
    pub fn write(&mut self, answer: Result<(), HostError>) -> (r: Result<(), Error>)
        ensures
            match answer {
                Ok(_) => r.is_ok() && final(self).in_flight().is_none(),
                Err(e) => r == Err::<(), Error>(Error::Unknown(e)) && final(self).in_flight()
                    == old(self).in_flight(),
            },
    {
        match answer {
            Ok(_) => {
                self.write = None;
                Ok(())
            },
            Err(e) => Err(Error::Unknown(e)),
        }
    }

    /// Gives the writer up for a plain one. A writer with a write in flight
    /// cannot be given up and comes back as it is.
    pub fn into_idle(self) -> (r: Result<(), TypedWriter<P>>)
        ensures
            match r {
                Ok(_) => self.in_flight().is_none(),
                Err(writer) => self.in_flight().is_some() && writer == self,
            },
    {
        if self.write.is_some() {
            Err(self)
        } else {
            Ok(())
        }
    }

    /// Takes a look at the writer on behalf of a caller with bytes to write,
    /// and says what to do. `polled` is what a look at the write in flight
    /// found, where there is one.
    ///
    /// A closed stream takes nothing. A full stream takes nothing either:
    /// the caller waits for the write in flight, or is done where there is
    /// none. A stream with room takes the bytes, unless the write before
    /// has failed; a write before that has not been answered yet is left to
    /// the host.
    pub fn poll_write(&mut self, room: Room, polled: Settled<()>) -> (action: WriteAction)
        ensures
            action == write_action(room, old(self).in_flight().is_some(), polled),
            final(self).in_flight() == if action is Wait || action is BrokenPipe {
                old(self).in_flight()
            } else {
                None
            },
    {
        match room {
            Room::Closed => WriteAction::BrokenPipe,
            Room::Full => {
                if self.write.is_some() {
                    match polled {
                        Settled::Pending => WriteAction::Wait,
                        Settled::Fulfilled(_) => {
                            self.write = None;
                            WriteAction::Done
                        },
                        Settled::Rejected(e) => {
                            self.write = None;
                            WriteAction::Failed(e)
                        },
                    }
                } else {
                    WriteAction::Done
                }
            },
            Room::Free => {
                let failed = if self.write.is_some() {
                    match polled {
                        Settled::Rejected(e) => Some(e),
                        _ => None,
                    }
                } else {
                    None
                };
                self.write = None;
                match failed {
                    Some(e) => WriteAction::Failed(e),
                    None => WriteAction::Submit,
                }
            },
        }
    }

    /// Takes a look at the writer on behalf of a caller who wants all
    /// writes to be through. `polled` is what a look at the write in flight
    /// found, where there is one.
    pub fn poll_flush(&mut self, polled: Settled<()>) -> (action: WriteAction)
        ensures
            action == flush_action(old(self).in_flight().is_some(), polled),
            final(self).in_flight() == if action is Wait {
                old(self).in_flight()
            } else {
                None
            },
    {
        if self.write.is_some() {
            match polled {
                Settled::Pending => WriteAction::Wait,
                Settled::Fulfilled(_) => {
                    self.write = None;
                    WriteAction::Done
                },
                Settled::Rejected(e) => {
                    self.write = None;
                    WriteAction::Failed(e)
                },
            }
        } else {
            WriteAction::Done
        }
    }
}

/// What a caller who wants all writes to be through has to do: wait for the
/// write in flight, report how it ended, or nothing where there is none.
pub open spec fn flush_action(in_flight: bool, polled: Settled<()>) -> WriteAction {
    if in_flight {
        match polled {
            Settled::Pending => WriteAction::Wait,
            Settled::Fulfilled(_) => WriteAction::Done,
            Settled::Rejected(e) => WriteAction::Failed(e),
        }
    } else {
        WriteAction::Done
    }
}

/// What a caller with bytes to write has to do.
pub open spec fn write_action(room: Room, in_flight: bool, polled: Settled<()>) -> WriteAction {
    match room {
        Room::Closed => WriteAction::BrokenPipe,
        Room::Full => flush_action(in_flight, polled),
        Room::Free => if in_flight && polled is Rejected {
            WriteAction::Failed(polled->Rejected_0)
        } else {
            WriteAction::Submit
        },
    }
}

} // verus!
