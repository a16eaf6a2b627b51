use vstd::prelude::*;

verus! {

/// The owner of one resource of the host, such as a frame or an engine.
///
/// A resource has to be given back to the host exactly once. The handle says
/// when: `release` yields the resource the first time it is called and
/// nothing ever after, so whoever closes what `release` yields closes each
/// resource once, however often and from wherever `release` is called.
#[derive(Debug)]
pub struct Handle<R> {
    inner: Option<R>,
}

impl<R> Handle<R> {
    /// The resource that the handle still owns, if any.
    pub closed spec fn resource(&self) -> Option<R> {
        self.inner
    }

    pub fn new(resource: R) -> (h: Handle<R>)
        ensures
            h.resource() == Some(resource),
    {
        Handle { inner: Some(resource) }
    }

    /// Whether the handle still owns its resource.
    pub fn is_open(&self) -> (open: bool)
        ensures
            open == self.resource().is_some(),
    {
        self.inner.is_some()
    }

    /// The resource, for a call that does not take it away.
    pub fn get(&self) -> (resource: Option<&R>)
        ensures
            match resource {
                Some(r) => self.resource() == Some(*r),
                None => self.resource().is_none(),
            },
    {
        self.inner.as_ref()
    }

    /// Takes the resource out of the handle so that it can be closed. The
    /// first call yields it; every later call yields nothing.
    pub fn release(&mut self) -> (resource: Option<R>)
        ensures
            resource == old(self).resource(),
            final(self).resource().is_none(),
    {
        self.inner.take()
    }

    /// Hands the resource to a caller who will close it on their own.
    pub fn leak(self) -> (resource: R)
        requires
            self.resource().is_some(),
        ensures
            self.resource() == Some(resource),
    {
        let mut this = self;
        this.inner.take().unwrap()
    }
}

} // verus!
