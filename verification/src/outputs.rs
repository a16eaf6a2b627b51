use std::collections::VecDeque;
use vstd::prelude::*;
use crate::error::{Error, HostError};

verus! {

/// How the life of an engine ended, if it has ended.
#[derive(Debug, PartialEq, Eq)]
pub enum Status {
    /// The engine is still running.
    Open,
    /// The engine was closed in good order.
    Closed,
    /// The engine failed, or its outputs had nowhere to go.
    Failed(Error),
}

impl Status {
    /// Whether the engine has come to its end.
    pub open spec fn is_terminal(self) -> bool {
        !(self is Open)
    }
}

impl Clone for Status {
    fn clone(&self) -> (s: Status)
        ensures
            s == *self,
    {
        match self {
            Status::Open => Status::Open,
            Status::Closed => Status::Closed,
            Status::Failed(e) => Status::Failed(e.clone()),
        }
    }
}

/// What one read of an output sequence found.
#[derive(Debug, PartialEq, Eq)]
pub enum Next<T> {
    /// Nothing yet: the reader has to wait for the engine.
    Pending,
    /// The next output.
    Output(T),
    /// The engine was closed in good order and every output has been read.
    End,
    /// The engine failed.
    Failed(Error),
}

/// The state of an output sequence as contracts see it.
pub struct Channel<T> {
    /// The outputs that were delivered and not yet read, oldest first.
    pub queue: Seq<T>,
    /// How the engine ended, if it has.
    pub status: Status,
    /// Whether there is still a reader.
    pub attached: bool,
}

impl<T> Channel<T> {
    /// The sequence of an engine that has just been built.
    pub open spec fn fresh() -> Channel<T> {
        Channel { queue: Seq::empty(), status: Status::Open, attached: true }
    }

    /// What holds of every sequence: without a reader nothing is kept.
    pub open spec fn inv(self) -> bool {
        !self.attached ==> self.queue.len() == 0
    }

    /// Whether an output that arrives now is kept for the reader.
    pub open spec fn accepts(self) -> bool {
        self.attached && self.status is Open
    }

    /// The terminal status is written once: the first one stays.
    pub open spec fn fail(self, error: Error) -> Channel<T> {
        if self.status is Open {
            Channel { status: Status::Failed(error), ..self }
        } else {
            self
        }
    }

    /// A close in good order, which leaves an earlier status alone.
    pub open spec fn close(self) -> Channel<T> {
        if self.status is Open {
            Channel { status: Status::Closed, ..self }
        } else {
            self
        }
    }

    /// An output arrives. It joins the queue at the back, or is discarded:
    /// after the end nothing is kept, and without a reader the sequence fails
    /// as dropped.
    pub open spec fn push(self, item: T) -> Channel<T> {
        if self.accepts() {
            Channel { queue: self.queue.push(item), ..self }
        } else if !self.attached {
            self.fail(Error::Dropped)
        } else {
            self
        }
    }

    /// The reader goes away, and with it what it had not read.
    pub open spec fn detach(self) -> Channel<T> {
        Channel { queue: Seq::empty(), attached: false, ..self }
    }

    /// What a read finds: the oldest unread output before anything else, the
    /// end of the engine once nothing is left to read.
    pub open spec fn next(self) -> Next<T> {
        if self.queue.len() > 0 {
            Next::Output(self.queue[0])
        } else {
            self.last_word()
        }
    }

    /// What a read finds once the queue is empty.
    pub open spec fn last_word(self) -> Next<T> {
        match self.status {
            Status::Open => Next::Pending,
            Status::Closed => Next::End,
            Status::Failed(e) => Next::Failed(e),
        }
    }

    /// The sequence after a read.
    pub open spec fn after_next(self) -> Channel<T> {
        if self.queue.len() > 0 {
            Channel { queue: self.queue.drop_first(), ..self }
        } else {
            self
        }
    }
}

/// One half of the bridge between an engine and its reader: the outputs that
/// the engine has delivered, in the order in which it delivered them, and the
/// one word on how the engine ended.
///
/// The engine's callbacks write to it and never wait; the reader polls it.
#[derive(Debug)]
pub struct OutputQueue<T> {
    queue: VecDeque<T>,
    status: Status,
    attached: bool,
}

impl<T> View for OutputQueue<T> {
    type V = Channel<T>;

    closed spec fn view(&self) -> Channel<T> {
        Channel { queue: self.queue@, status: self.status, attached: self.attached }
    }
}

impl<T> OutputQueue<T> {
    pub fn new() -> (q: OutputQueue<T>)
        ensures
            q@ == Channel::<T>::fresh(),
    {
        OutputQueue { queue: VecDeque::new(), status: Status::Open, attached: true }
    }

    /// Takes one output from the engine. It is kept for the reader, or handed
    /// back where it cannot be: after the end of the engine, or when the
    /// reader is gone, which also makes the sequence fail as dropped.
    pub fn push(&mut self, item: T) -> (rejected: Option<T>)
        ensures
            final(self)@ == old(self)@.push(item),
            rejected == if old(self)@.accepts() {
                None
            } else {
                Some(item)
            },
    {
        if !self.attached {
            if let Status::Open = self.status {
                self.status = Status::Failed(Error::Dropped);
            }
            Some(item)
        } else if let Status::Open = self.status {
            self.queue.push_back(item);
            None
        } else {
            Some(item)
        }
    }

    /// Records that the engine failed, unless its end is on record already.
    pub fn fail(&mut self, error: Error)
        ensures
            final(self)@ == old(self)@.fail(error),
    {
        if let Status::Open = self.status {
            self.status = Status::Failed(error);
        }
    }

    /// Records that the engine was closed in good order, unless its end is on
    /// record already.
    pub fn close(&mut self)
        ensures
            final(self)@ == old(self)@.close(),
    {
        if let Status::Open = self.status {
            self.status = Status::Closed;
        }
    }

    /// The reader goes away. What it had not read is handed back, oldest
    /// first, so that the caller can release it.
    pub fn detach(&mut self) -> (unread: VecDeque<T>)
        ensures
            final(self)@ == old(self)@.detach(),
            unread@ == old(self)@.queue,
    {
        let mut unread: VecDeque<T> = VecDeque::new();
        unread.append(&mut self.queue);
        self.attached = false;
        unread
    }

    /// One read. It never waits: where nothing is ready it says so.
    pub fn next(&mut self) -> (found: Next<T>)
        ensures
            found == old(self)@.next(),
            final(self)@ == old(self)@.after_next(),
    {
        match self.queue.pop_front() {
            Some(item) => Next::Output(item),
            None => match &self.status {
                Status::Open => Next::Pending,
                Status::Closed => Next::End,
                Status::Failed(e) => Next::Failed(e.clone()),
            },
        }
    }

    /// How many outputs wait to be read.
    pub fn len(&self) -> (n: usize)
        ensures
            n == self@.queue.len(),
    {
        self.queue.len()
    }

    /// A copy of the word on how the engine ended.
    pub fn status(&self) -> (status: Status)
        ensures
            status == self@.status,
    {
        self.status.clone()
    }

    /// Whether there is still a reader.
    pub fn is_attached(&self) -> (attached: bool)
        ensures
            attached == self@.attached,
    {
        self.attached
    }
}

/// What a wait for the host finds: the answer of the host where there is
/// one, else the end of the engine where it has ended, else nothing yet.
pub open spec fn awaited(completion: Option<Result<(), HostError>>, status: Status) -> Next<()> {
    match completion {
        Some(Ok(_)) => Next::Output(()),
        Some(Err(e)) => Next::Failed(Error::Unknown(e)),
        None => match status {
            Status::Open => Next::Pending,
            Status::Closed => Next::End,
            Status::Failed(e) => Next::Failed(e),
        },
    }
}

/// Looks at a wait for the host: the answer of the host where there is one,
/// else the end of the engine where it has ended, else nothing yet.
pub fn await_host(completion: Option<Result<(), HostError>>, status: Status) -> (found: Next<()>)
    ensures
        found == awaited(completion, status),
{
    match completion {
        Some(Ok(_)) => Next::Output(()),
        Some(Err(e)) => Next::Failed(Error::Unknown(e)),
        None => match status {
            Status::Open => Next::Pending,
            Status::Closed => Next::End,
            Status::Failed(e) => Next::Failed(e),
        },
    }
}

} // verus!
