//! The per-window event-dispatch state machine.
//!
//! The host invokes one entry point for every event aimed at the window.
//! The machine owns the protocol for associating the window's application
//! state (the state carrier) with its handle, and for handling paint, close
//! and destroy events.  Every host effect the machine decides on — request
//! destruction, post the quit signal, run one scoped paint — is returned as
//! a [`HostRequest`] for the unverified surroundings to perform; every event
//! the machine does not recognise is returned as
//! [`DispatchOutcome::ForwardToDefault`], never swallowed.
//!
//! Assumptions, as the host documents its own behaviour: at most one
//! structural-creation notification and at most one destroy notification
//! arrive per window.  A destroy notification for a handle with no attached
//! carrier is handled defensively: nothing is freed, the quit signal is
//! still posted.  The carrier's counter wraps around at its maximum.

use vstd::prelude::*;

use crate::win32::COLOR_WINDOW;

verus! {

/// The application-owned payload attached to one window: a single counter.
#[derive(Debug, Clone, Copy, PartialEq, Eq, Structural)]
pub struct StateCarrier {
    pub counter: i32,
}

/// The per-window association slot, which is also the carrier's lifecycle:
/// unattached (the payload still travels with the creation parameters),
/// attached under a window handle, or freed for good.
#[derive(Debug, Clone, Copy, PartialEq, Eq, Structural)]
pub enum AssociationSlot {
    /// No carrier has been stored yet.
    Unattached,
    /// The carrier is stored, keyed by the window handle it belongs to.
    Attached { window: usize, carrier: StateCarrier },
    /// The carrier has been released; terminal.
    Freed,
}

/// One event aimed at the window, already decoded from the host's numeric
/// kind and parameter words.
#[derive(Debug, Clone, Copy)]
pub enum WindowEvent {
    /// The user asked to close the window.
    CloseRequest,
    /// The window is being destroyed.
    DestroyNotification,
    /// The structural-creation notification, carrying the payload out of the
    /// creation-parameters record; `None` models an absent (null) record.
    CreationNotice { payload: Option<StateCarrier> },
    /// The plain creation notification; acknowledged, nothing to do.
    CreateNotice,
    /// The client region must be repainted.  The flag reports whether the
    /// host's fill succeeded; the machine's behaviour does not depend on it.
    PaintRequest { fill_ok: bool },
    /// Any event kind the machine does not recognise.
    Unrecognized { message: u32, w_param: usize, l_param: isize },
}

/// What the entry point returns to the host.
#[derive(Debug, Clone, Copy, PartialEq, Eq, Structural)]
pub enum DispatchOutcome {
    /// The event was handled; return this result word.
    Handled(isize),
    /// Delegate to the host's default per-kind behaviour and return its
    /// result verbatim.
    ForwardToDefault,
}

/// The host effect the machine asks its surroundings to perform.
#[derive(Debug, Clone, Copy, PartialEq, Eq, Structural)]
pub enum HostRequest {
    /// Ask the host to destroy the window.
    RequestDestruction,
    /// Post the quit signal that ends the message pump.
    PostQuit,
    /// Acquire a paint context, fill the client region with this brush, and
    /// release the context unconditionally.
    PaintScope { brush: usize },
    /// No host call.
    Idle,
}

/// The result word for a creation notification that may proceed.
pub const CREATION_CONTINUE: isize = 1;

/// The result word for a rejected creation notification.
pub const CREATION_REJECT: isize = 0;

/// The mathematical state of the machine.
pub struct MachineModel {
    pub slot: AssociationSlot,
    pub destroy_requested: bool,
    pub quit_posted: bool,
    /// Paint contexts acquired so far.
    pub contexts_acquired: int,
    /// Paint contexts released so far; always equal to the acquisitions.
    pub contexts_released: int,
}

/// The event-dispatch state machine for one window.
pub struct EventMachine {
    /// The association slot: the one piece of shared mutable state, written
    /// only by dispatch.
    pub slot: AssociationSlot,
    /// A close request has asked the host for destruction.
    pub destroy_requested: bool,
    /// The destroy notification has posted the quit signal.
    pub quit_posted: bool,
    /// Paint contexts acquired so far (bookkeeping for the proofs).
    pub contexts_acquired: Ghost<int>,
    /// Paint contexts released so far (bookkeeping for the proofs).
    pub contexts_released: Ghost<int>,
}

impl View for EventMachine {
    type V = MachineModel;

    open spec fn view(&self) -> MachineModel {
        MachineModel {
            slot: self.slot,
            destroy_requested: self.destroy_requested,
            quit_posted: self.quit_posted,
            contexts_acquired: self.contexts_acquired@,
            contexts_released: self.contexts_released@,
        }
    }
}

/// The state of a machine that has seen no event.
pub open spec fn initial_model() -> MachineModel {
    MachineModel {
        slot: AssociationSlot::Unattached,
        destroy_requested: false,
        quit_posted: false,
        contexts_acquired: 0,
        contexts_released: 0,
    }
}

/// The counter's successor, wrapping around at the maximum.
pub open spec fn wrapped_inc(c: i32) -> i32 {
    if c == i32::MAX {
        i32::MIN
    } else {
        (c + 1) as i32
    }
}

/// The machine state after one event.
pub open spec fn step(m: MachineModel, window: usize, e: WindowEvent) -> MachineModel {
    match e {
        WindowEvent::CloseRequest => MachineModel { destroy_requested: true, ..m },
        WindowEvent::DestroyNotification => MachineModel {
            slot: if m.slot matches AssociationSlot::Attached { window: w, .. } && w == window {
                AssociationSlot::Freed
            } else {
                m.slot
            },
            quit_posted: true,
            ..m
        },
        WindowEvent::CreationNotice { payload: Some(carrier) } => MachineModel {
            slot: AssociationSlot::Attached { window, carrier },
            ..m
        },
        WindowEvent::CreationNotice { payload: None } => m,
        WindowEvent::CreateNotice => m,
        WindowEvent::PaintRequest { .. } => MachineModel {
            slot: match m.slot {
                AssociationSlot::Attached { window: w, carrier } => AssociationSlot::Attached {
                    window: w,
                    carrier: StateCarrier { counter: wrapped_inc(carrier.counter) },
                },
                _ => m.slot,
            },
            contexts_acquired: m.contexts_acquired + 1,
            contexts_released: m.contexts_released + 1,
            ..m
        },
        WindowEvent::Unrecognized { .. } => m,
    }
}

/// The result word returned to the host for one event.
pub open spec fn step_outcome(e: WindowEvent) -> DispatchOutcome {
    match e {
        WindowEvent::CloseRequest => DispatchOutcome::Handled(0),
        WindowEvent::DestroyNotification => DispatchOutcome::Handled(0),
        WindowEvent::CreationNotice { payload: Some(_) } => DispatchOutcome::Handled(
            CREATION_CONTINUE,
        ),
        WindowEvent::CreationNotice { payload: None } => DispatchOutcome::Handled(CREATION_REJECT),
        WindowEvent::CreateNotice => DispatchOutcome::Handled(0),
        WindowEvent::PaintRequest { .. } => DispatchOutcome::Handled(0),
        WindowEvent::Unrecognized { .. } => DispatchOutcome::ForwardToDefault,
    }
}

/// The host effect requested for one event.
pub open spec fn step_request(e: WindowEvent) -> HostRequest {
    match e {
        WindowEvent::CloseRequest => HostRequest::RequestDestruction,
        WindowEvent::DestroyNotification => HostRequest::PostQuit,
        WindowEvent::PaintRequest { .. } => HostRequest::PaintScope {
            brush: (COLOR_WINDOW + 1) as usize,
        },
        _ => HostRequest::Idle,
    }
}

/// What the dispatch entry point demands of a correct event sequence: a
/// paint request only reaches a carrier attached under the same handle, and
/// the one structural-creation notification with a payload arrives before
/// anything is attached.
pub open spec fn event_permitted(m: MachineModel, window: usize, e: WindowEvent) -> bool {
    &&& (e is PaintRequest ==> (m.slot matches AssociationSlot::Attached { window: w, .. } && w
        == window))
    &&& ((e matches WindowEvent::CreationNotice { payload } && payload is Some)
        ==> m.slot is Unattached)
}

impl EventMachine {
    /// A machine for a window not yet created: nothing attached, no
    /// destruction requested, no quit posted.
    pub fn new() -> (m: EventMachine)
        ensures
            m@ == initial_model(),
    {
        let m = EventMachine {
            slot: AssociationSlot::Unattached,
            destroy_requested: false,
            quit_posted: false,
            contexts_acquired: Ghost(0),
            contexts_released: Ghost(0),
        };
        proof {
            assert(m@ == initial_model());
        }
        m
    }

    /// A machine already in a given observable state, with no paint scopes
    /// on the books yet.
    pub fn with_state(slot: AssociationSlot, destroy_requested: bool, quit_posted: bool) -> (m:
        EventMachine)
        ensures
            m@ == (MachineModel {
                slot,
                destroy_requested,
                quit_posted,
                contexts_acquired: 0,
                contexts_released: 0,
            }),
    {
        EventMachine {
            slot,
            destroy_requested,
            quit_posted,
            contexts_acquired: Ghost(0),
            contexts_released: Ghost(0),
        }
    }

    /// Dispatch one event aimed at `window`.
    ///
    /// - A close request asks the host for destruction and handles the event
    ///   with result 0; nothing is destroyed in place.
    /// - A destroy notification frees the carrier attached under this handle
    ///   (defensively nothing, when none is attached) and posts the quit
    ///   signal.
    /// - A creation notice with a payload attaches it under this handle and
    ///   returns the continue sentinel; with an absent record it rejects and
    ///   attaches nothing.
    /// - A paint request steps the attached carrier's counter by exactly one
    ///   (wrapping at the maximum) and asks for one scoped paint: the
    ///   context is acquired and released in the same request, whatever the
    ///   fill reported.
    /// - Any other event changes nothing and is forwarded to the host's
    ///   default behaviour.
    pub fn dispatch(&mut self, window: usize, event: WindowEvent) -> (r: (
        DispatchOutcome,
        HostRequest,
    ))
        requires
            event_permitted(old(self)@, window, event),
        ensures
            final(self)@ == step(old(self)@, window, event),
            r.0 == step_outcome(event),
            r.1 == step_request(event),
            final(self)@.contexts_acquired == old(self)@.contexts_acquired + (
            if event is PaintRequest {
                1int
            } else {
                0int
            }),
            old(self)@.contexts_released == old(self)@.contexts_acquired
                ==> final(self)@.contexts_released == final(self)@.contexts_acquired,
    {
        match event {
            WindowEvent::CloseRequest => {
                self.destroy_requested = true;
                (DispatchOutcome::Handled(0), HostRequest::RequestDestruction)
            },
            WindowEvent::DestroyNotification => {
                let free_it = match &self.slot {
                    AssociationSlot::Attached { window: w, .. } => *w == window,
                    _ => false,
                };
                if free_it {
                    self.slot = AssociationSlot::Freed;
                }
                self.quit_posted = true;
                (DispatchOutcome::Handled(0), HostRequest::PostQuit)
            },
            WindowEvent::CreationNotice { payload: Some(carrier) } => {
                self.slot = AssociationSlot::Attached { window, carrier };
                (DispatchOutcome::Handled(CREATION_CONTINUE), HostRequest::Idle)
            },
            WindowEvent::CreationNotice { payload: None } => {
                (DispatchOutcome::Handled(CREATION_REJECT), HostRequest::Idle)
            },
            WindowEvent::CreateNotice => (DispatchOutcome::Handled(0), HostRequest::Idle),
            WindowEvent::PaintRequest { .. } => {
                match &self.slot {
                    AssociationSlot::Attached { window: w, carrier } => {
                        let next = if carrier.counter == i32::MAX {
                            i32::MIN
                        } else {
                            carrier.counter + 1
                        };
                        self.slot = AssociationSlot::Attached {
                            window: *w,
                            carrier: StateCarrier { counter: next },
                        };
                    },
                    _ => {
                        proof {
                            assert(false);
                        }
                    },
                }
                proof {
                    self.contexts_acquired@ = self.contexts_acquired@ + 1;
                    self.contexts_released@ = self.contexts_released@ + 1;
                }
                (
                    DispatchOutcome::Handled(0),
                    HostRequest::PaintScope { brush: (COLOR_WINDOW + 1) as usize },
                )
            },
            WindowEvent::Unrecognized { .. } => {
                (DispatchOutcome::ForwardToDefault, HostRequest::Idle)
            },
        }
    }
}

/// A paint request steps the machine the same way whatever the fill
/// reported: the counter moves by one and the paint context is acquired and
/// released either way.
pub proof fn lemma_paint_ignores_fill_outcome(m: MachineModel, window: usize)
    ensures
        step(m, window, WindowEvent::PaintRequest { fill_ok: true }) == step(
            m,
            window,
            WindowEvent::PaintRequest { fill_ok: false },
        ),
        step_request(WindowEvent::PaintRequest { fill_ok: true }) == step_request(
            WindowEvent::PaintRequest { fill_ok: false },
        ),
{
}

} // verus!
