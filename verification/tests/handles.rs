use std::cell::Cell;
use std::rc::Rc;
use web_codecs::{Dimensions, Handle, Timestamp, VideoFrame};

/// A host that counts how often each of its resources is closed.
#[derive(Clone, Default)]
struct Host {
    opened: Rc<Cell<u32>>,
    closed: Rc<Cell<u32>>,
}

/// A resource of the counting host.
struct Resource {
    host: Host,
}

impl Host {
    fn open(&self) -> Resource {
        self.opened.set(self.opened.get() + 1);
        Resource { host: self.clone() }
    }
}

impl Resource {
    fn close(self) {
        self.host.closed.set(self.host.closed.get() + 1);
    }
}

/// A scope guard as an application writes it: whatever the handle still
/// owns at the end of the scope is closed.
struct Scoped(Handle<Resource>);

impl Drop for Scoped {
    fn drop(&mut self) {
        if let Some(resource) = self.0.release() {
            resource.close();
        }
    }
}

/// The same guard around a frame.
struct ScopedFrame(VideoFrame<Resource>);

impl Drop for ScopedFrame {
    fn drop(&mut self) {
        if let Some(resource) = self.0.release() {
            resource.close();
        }
    }
}

#[test]
fn handle_yields_its_resource_once() {
    let mut h = Handle::new(5u32);
    assert!(h.is_open());
    assert_eq!(h.get(), Some(&5));
    assert_eq!(h.release(), Some(5));
    assert!(!h.is_open());
    assert_eq!(h.get(), None);
    assert_eq!(h.release(), None);
    assert_eq!(h.release(), None);
}

#[test]
fn leak_hands_the_resource_over() {
    let h = Handle::new("frame");
    assert_eq!(h.leak(), "frame");
}

#[test]
fn dropping_a_handle_closes_the_resource_once() {
    let host = Host::default();
    {
        let _guard = Scoped(Handle::new(host.open()));
        assert_eq!(host.closed.get(), 0);
    }
    assert_eq!(host.opened.get(), 1);
    assert_eq!(host.closed.get(), 1);
}

#[test]
fn closing_by_hand_and_then_dropping_closes_once() {
    let host = Host::default();
    {
        let mut guard = Scoped(Handle::new(host.open()));
        guard.0.release().unwrap().close();
        assert_eq!(host.closed.get(), 1);
        assert!(guard.0.release().is_none());
    }
    assert_eq!(host.closed.get(), 1);
}

#[test]
fn every_handle_is_closed_exactly_once() {
    let host = Host::default();
    {
        let mut guards = Vec::new();
        for i in 0..10u64 {
            guards.push(ScopedFrame(VideoFrame::new(
                host.open(),
                Timestamp::from_millis(i),
                None,
                Dimensions::new(2, 2),
            )));
        }
        // Some are closed early, the rest when the scope ends.
        for guard in guards.iter_mut().step_by(3) {
            if let Some(resource) = guard.0.release() {
                resource.close();
            }
        }
        assert_eq!(host.closed.get(), 4);
    }
    assert_eq!(host.opened.get(), 10);
    assert_eq!(host.closed.get(), 10);
}

#[test]
fn a_leaked_resource_is_not_closed_by_the_handle() {
    let host = Host::default();
    let leaked = {
        let handle = Handle::new(host.open());
        handle.leak()
    };
    assert_eq!(host.closed.get(), 0);
    leaked.close();
    assert_eq!(host.closed.get(), 1);
}
