//! The embedded rendering control, modelled by the ordered record of the
//! requests it has received. The native control itself (rendering,
//! navigation internals, script execution) is the host's; this model is
//! what the lifecycle rules are proved against.

use vstd::prelude::*;

verus! {

/// Initial window geometry, consumed once at creation; resizing afterwards
/// is reactive and not part of the tracked state.
#[derive(Clone, Copy, PartialEq, Eq, Structural, Debug)]
pub struct Geometry {
    pub width: i32,
    pub height: i32,
    pub resizable: bool,
    pub frameless: bool,
}

/// A request the embedded control has received.
pub enum ControlEvent {
    /// Navigate to the given URL.
    Navigated(Vec<u8>),
    /// Inject the given markup as the document body.
    Wrote(Vec<u8>),
    /// Execute the given script fragment and discard its value.
    Evaluated(Vec<u8>),
}

/// Spec-level image of a `ControlEvent`.
pub enum EventModel {
    Navigated(Seq<u8>),
    Wrote(Seq<u8>),
    Evaluated(Seq<u8>),
}

impl View for ControlEvent {
    type V = EventModel;

    open spec fn view(&self) -> EventModel {
        match self {
            ControlEvent::Navigated(u) => EventModel::Navigated(u@),
            ControlEvent::Wrote(c) => EventModel::Wrote(c@),
            ControlEvent::Evaluated(s) => EventModel::Evaluated(s@),
        }
    }
}

/// Spec-level image of the control: whether the native control is attached,
/// the requests it has received in order, and whether a host-callback is
/// registered.
#[verifier::ext_equal]
pub struct ControlModel {
    pub initialized: bool,
    pub events: Seq<EventModel>,
    pub callback_set: bool,
}

/// The embedded control host. `initialize` must be called exactly once
/// before any navigation or evaluation; the requests themselves are
/// asynchronous on the native side, so each is recorded and handed on
/// without a completion result.
pub struct ControlHost {
    initialized: bool,
    events: Vec<ControlEvent>,
    callback_set: bool,
}

impl View for ControlHost {
    type V = ControlModel;

    closed spec fn view(&self) -> ControlModel {
        ControlModel {
            initialized: self.initialized,
            events: self.events@.map(|i: int, e: ControlEvent| e@),
            callback_set: self.callback_set,
        }
    }
}

impl ControlHost {
    /// A detached control: no native control yet, nothing received.
    pub fn new() -> (c: ControlHost)
        ensures
            c@ == (ControlModel { initialized: false, events: Seq::empty(), callback_set: false }),
    {
        let c = ControlHost { initialized: false, events: Vec::new(), callback_set: false };
        proof {
            assert(c@.events =~= Seq::<EventModel>::empty());
            assert(c@ =~= ControlModel {
                initialized: false,
                events: Seq::empty(),
                callback_set: false,
            });
        }
        c
    }

    /// Attaches the native control inside the window's client area at the
    /// given geometry. Must be called exactly once, before any request.
    pub fn initialize(&mut self, geometry: Geometry)
        requires
            !old(self)@.initialized,
        ensures
            final(self)@ == (ControlModel { initialized: true, ..old(self)@ }),
    {
        self.initialized = true;
        proof {
            assert(final(self)@ =~= ControlModel { initialized: true, ..old(self)@ });
        }
    }

    /// Requests navigation to the given URL; completion is observed only
    /// through a later host-callback invocation.
    pub fn navigate(&mut self, target: Vec<u8>)
        requires
            old(self)@.initialized,
        ensures
            final(self)@ == (ControlModel {
                events: old(self)@.events.push(EventModel::Navigated(target@)),
                ..old(self)@
            }),
    {
        let ghost t = target@;
        self.events.push(ControlEvent::Navigated(target));
        proof {
            assert(final(self)@.events =~= old(self)@.events.push(EventModel::Navigated(t)));
            assert(final(self)@ =~= ControlModel {
                events: old(self)@.events.push(EventModel::Navigated(t)),
                ..old(self)@
            });
        }
    }

    /// Injects the given markup as the document body.
    pub fn write(&mut self, content: Vec<u8>)
        requires
            old(self)@.initialized,
        ensures
            final(self)@ == (ControlModel {
                events: old(self)@.events.push(EventModel::Wrote(content@)),
                ..old(self)@
            }),
    {
        let ghost t = content@;
        self.events.push(ControlEvent::Wrote(content));
        proof {
            assert(final(self)@.events =~= old(self)@.events.push(EventModel::Wrote(t)));
            assert(final(self)@ =~= ControlModel {
                events: old(self)@.events.push(EventModel::Wrote(t)),
                ..old(self)@
            });
        }
    }

    /// Requests execution of a script fragment, fire-and-forget.
    pub fn eval(&mut self, script: Vec<u8>)
        requires
            old(self)@.initialized,
        ensures
            final(self)@ == (ControlModel {
                events: old(self)@.events.push(EventModel::Evaluated(script@)),
                ..old(self)@
            }),
    {
        let ghost t = script@;
        self.events.push(ControlEvent::Evaluated(script));
        proof {
            assert(final(self)@.events =~= old(self)@.events.push(EventModel::Evaluated(t)));
            assert(final(self)@ =~= ControlModel {
                events: old(self)@.events.push(EventModel::Evaluated(t)),
                ..old(self)@
            });
        }
    }

    /// Registers the single host-callback; a later registration replaces an
    /// earlier one (last registration wins, at most one active).
    pub fn set_callback(&mut self)
        requires
            old(self)@.initialized,
        ensures
            final(self)@ == (ControlModel { callback_set: true, ..old(self)@ }),
    {
        self.callback_set = true;
        proof {
            assert(final(self)@ =~= ControlModel { callback_set: true, ..old(self)@ });
        }
    }

    /// Detaches and releases the native control; the record of received
    /// requests remains readable.
    pub fn release(&mut self)
        ensures
            final(self)@ == (ControlModel {
                initialized: false,
                callback_set: false,
                events: old(self)@.events,
            }),
    {
        self.initialized = false;
        self.callback_set = false;
        proof {
            assert(final(self)@ =~= ControlModel {
                initialized: false,
                callback_set: false,
                events: old(self)@.events,
            });
        }
    }

    /// Whether the native control is attached.
    pub fn is_initialized(&self) -> (r: bool)
        ensures
            r == self@.initialized,
    {
        self.initialized
    }

    /// The requests received so far, oldest first.
    pub fn events(&self) -> (r: &Vec<ControlEvent>)
        ensures
            r@.map(|i: int, e: ControlEvent| e@) == self@.events,
    {
        &self.events
    }
}

} // verus!
