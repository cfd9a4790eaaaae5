//! The gatekeeper: what becomes of one inbound connection, from the moment
//! it is accepted until both of its sides are closed.
//!
//! The network belongs to the caller. The caller reports what happened as a
//! `GateEvent` and carries out the `GateAction` that comes back.

use vstd::prelude::*;
use crate::storage::{
    answered_now, has_public_key, is_authorized, Selector, StorageBackend, StoreError,
};

verus! {

/// Where a connection stands.
#[derive(Clone, Copy, Debug, PartialEq, Eq, Structural)]
pub enum GateState {
    /// Accepted; the store is being asked about the peer.
    Screening,
    /// Admitted; the upstream is being dialled.
    Dialing,
    /// Spliced to the upstream; bytes flow both ways.
    Forwarding,
    /// Over. Nothing more happens on this connection.
    Closed,
}

/// What the caller saw happen.
#[derive(Clone, Copy, Debug, PartialEq, Eq, Structural)]
pub enum GateEvent {
    /// The store knows the peer.
    Allowed,
    /// The store does not know the peer.
    Denied,
    /// The store could not answer.
    CheckFailed,
    /// The upstream took the connection.
    Connected,
    /// The upstream could not be reached.
    DialFailed,
    /// The peer's side reached its end.
    InboundEnded,
    /// The upstream's side reached its end.
    UpstreamEnded,
    /// Copying failed in either direction.
    TransferFailed,
}

/// What the caller is to do next.
#[derive(Clone, Copy, Debug, PartialEq, Eq, Structural)]
pub enum GateAction {
    /// Open a connection to the upstream.
    Dial,
    /// Copy bytes both ways until either side ends.
    Forward,
    /// Close the inbound connection; no upstream connection is open.
    Drop,
    /// Stop copying both ways and close both connections.
    Shutdown,
    /// Nothing: the connection is over already.
    Ignore,
}

/// The selector under which a peer is looked up: its network address.
pub fn peer_selector(address: String) -> (selector: Selector)
    ensures
        selector == Selector::Address(address),
{
    Selector::Address(address)
}

/// The event that an answer of the store amounts to. Only a definite yes
/// admits: a failure of the store counts against the peer.
pub open spec fn spec_admission(check: Result<bool, StoreError>) -> GateEvent {
    match check {
        Ok(true) => GateEvent::Allowed,
        Ok(false) => GateEvent::Denied,
        Err(_) => GateEvent::CheckFailed,
    }
}

pub fn admission(check: Result<bool, StoreError>) -> (event: GateEvent)
    ensures
        event == spec_admission(check),
        event == GateEvent::Allowed <==> check == Ok::<bool, StoreError>(true),
{
    match check {
        Ok(true) => GateEvent::Allowed,
        Ok(false) => GateEvent::Denied,
        Err(_) => GateEvent::CheckFailed,
    }
}

/// One step of a connection. Each state waits for its own events: admission
/// while screening, the dial's result while dialling, an end while
/// forwarding. The expected good news moves on; anything else closes, with
/// the action that releases exactly what is open.
pub open spec fn spec_step(state: GateState, event: GateEvent) -> (GateState, GateAction) {
    match state {
        GateState::Screening => if event == GateEvent::Allowed {
            (GateState::Dialing, GateAction::Dial)
        } else {
            (GateState::Closed, GateAction::Drop)
        },
        GateState::Dialing => if event == GateEvent::Connected {
            (GateState::Forwarding, GateAction::Forward)
        } else {
            (GateState::Closed, GateAction::Drop)
        },
        GateState::Forwarding => (GateState::Closed, GateAction::Shutdown),
        GateState::Closed => (GateState::Closed, GateAction::Ignore),
    }
}

pub fn gate_step(state: GateState, event: GateEvent) -> (next: (GateState, GateAction))
    ensures
        next == spec_step(state, event),
{
    match state {
        GateState::Screening => match event {
            GateEvent::Allowed => (GateState::Dialing, GateAction::Dial),
            _ => (GateState::Closed, GateAction::Drop),
        },
        GateState::Dialing => match event {
            GateEvent::Connected => (GateState::Forwarding, GateAction::Forward),
            _ => (GateState::Closed, GateAction::Drop),
        },
        GateState::Forwarding => (GateState::Closed, GateAction::Shutdown),
        GateState::Closed => (GateState::Closed, GateAction::Ignore),
    }
}

/// A connection's whole course: the state reached and the actions asked
/// for, one per event, when the events arrive in this order.
pub open spec fn spec_run(state: GateState, events: Seq<GateEvent>) -> (GateState, Seq<GateAction>)
    decreases events.len(),
{
    if events.len() == 0 {
        (state, Seq::empty())
    } else {
        let (reached, actions) = spec_run(state, events.drop_last());
        let (next, action) = spec_step(reached, events.last());
        (next, actions.push(action))
    }
}

/// One inbound connection.
#[derive(Debug)]
pub struct Gate {
    state: GateState,
}

impl Gate {
    pub closed spec fn state(&self) -> GateState {
        self.state
    }

    /// A connection just accepted.
    pub fn new() -> (gate: Self)
        ensures
            gate.state() == GateState::Screening,
    {
        Gate { state: GateState::Screening }
    }

    pub fn current(&self) -> (state: GateState)
        ensures
            state == self.state(),
    {
        self.state
    }

    /// Takes an event in and says what to do.
    pub fn on(&mut self, event: GateEvent) -> (action: GateAction)
        ensures
            (final(self).state(), action) == spec_step(old(self).state(), event),
    {
        let (next, action) = gate_step(self.state, event);
        self.state = next;
        action
    }

    /// Takes a run of events in, in order, and says what to do at each.
    pub fn run(&mut self, events: &Vec<GateEvent>) -> (actions: Vec<GateAction>)
        ensures
            (final(self).state(), actions@) == spec_run(old(self).state(), events@),
    {
        let mut actions: Vec<GateAction> = Vec::new();
        let mut i: usize = 0;
        while i < events.len()
            invariant
                i <= events.len(),
                (self.state(), actions@) == spec_run(old(self).state(), events@.subrange(0, i as int)),
            decreases events.len() - i,
        {
            proof {
                assert(events@.subrange(0, i + 1).drop_last() =~= events@.subrange(0, i as int));
            }
            let action = self.on(events[i]);
            actions.push(action);
            i += 1;
        }
        proof {
            assert(events@.subrange(0, i as int) =~= events@);
        }
        actions
    }
}

/// The course of a connection from its acceptance, event by event: one
/// action per event; the state after one, two and more events; and where
/// each kind of action can stand.
proof fn lemma_course(events: Seq<GateEvent>)
    ensures
        ({
            let (reached, actions) = spec_run(GateState::Screening, events);
            let admitted = events.len() >= 1 && events[0] == GateEvent::Allowed;
            let spliced = admitted && events.len() >= 2 && events[1] == GateEvent::Connected;
            &&& actions.len() == events.len()
            &&& events.len() == 0 ==> reached == GateState::Screening
            &&& events.len() == 1 ==> reached == if admitted {
                GateState::Dialing
            } else {
                GateState::Closed
            }
            &&& events.len() == 2 ==> reached == if spliced {
                GateState::Forwarding
            } else {
                GateState::Closed
            }
            &&& events.len() >= 3 ==> reached == GateState::Closed
            &&& events.len() >= 1 ==> actions[0] == if admitted {
                GateAction::Dial
            } else {
                GateAction::Drop
            }
            &&& events.len() >= 2 ==> actions[1] == if spliced {
                GateAction::Forward
            } else if admitted {
                GateAction::Drop
            } else {
                GateAction::Ignore
            }
            &&& events.len() >= 3 ==> actions[2] == if spliced {
                GateAction::Shutdown
            } else {
                GateAction::Ignore
            }
            &&& forall|i: int| 3 <= i < actions.len() ==> #[trigger] actions[i] == GateAction::Ignore
        }),
    decreases events.len(),
{
    if events.len() > 0 {
        let earlier = events.drop_last();
        lemma_course(earlier);
        let (reached, actions) = spec_run(GateState::Screening, earlier);
        let (next, action) = spec_step(reached, events.last());
        assert(spec_run(GateState::Screening, events) == (next, actions.push(action)));
        assert(forall|i: int| 0 <= i < earlier.len() ==> earlier[i] == events[i]);
    }
}

/// The upstream is dialled for admitted peers only, and once at most. A
/// `Dial` can only be the first action, and it is the first action exactly
/// when the first event is `Allowed`. So a peer that the store denies, or
/// that it cannot answer for, never causes a connection attempt.
pub proof fn law_dial_only_when_allowed(events: Seq<GateEvent>)
    ensures
        ({
            let actions = spec_run(GateState::Screening, events).1;
            let admitted = events.len() >= 1 && events[0] == GateEvent::Allowed;
            &&& actions.len() == events.len()
            &&& forall|i: int|
                0 <= i < actions.len() && #[trigger] actions[i] == GateAction::Dial ==> i == 0
                    && admitted
            &&& admitted ==> actions[0] == GateAction::Dial
        }),
{
    lemma_course(events);
}

/// Bytes are forwarded over a dialled upstream only, and in one session at
/// most. A `Forward` can only be the second action, and it is the second
/// action exactly when the events begin with `Allowed` and `Connected`. So
/// nothing is forwarded for a peer that was not admitted.
pub proof fn law_forward_only_when_connected(events: Seq<GateEvent>)
    ensures
        ({
            let actions = spec_run(GateState::Screening, events).1;
            let spliced = events.len() >= 2 && events[0] == GateEvent::Allowed && events[1]
                == GateEvent::Connected;
            &&& forall|i: int|
                0 <= i < actions.len() && #[trigger] actions[i] == GateAction::Forward ==> i == 1
                    && spliced
            &&& spliced ==> actions[1] == GateAction::Forward && actions[0] == GateAction::Dial
        }),
{
    lemma_course(events);
}

/// A forwarding session ends, both ways at once, with the first thing that
/// happens to it: whatever the third event is, the action is `Shutdown` and
/// the connection is closed. A connection that is closed stays closed.
pub proof fn law_session_ends_at_once(events: Seq<GateEvent>)
    requires
        events.len() >= 3,
    ensures
        ({
            let (reached, actions) = spec_run(GateState::Screening, events);
            let spliced = events[0] == GateEvent::Allowed && events[1] == GateEvent::Connected;
            &&& reached == GateState::Closed
            &&& spliced ==> actions[2] == GateAction::Shutdown
            &&& forall|i: int| 3 <= i < actions.len() ==> #[trigger] actions[i] == GateAction::Ignore
        }),
{
    lemma_course(events);
}

/// Accepts a connection from the peer at `address` and screens it against
/// the store. The action is `Dial` or `Drop`, and `Dial` only if the store
/// answered that a live identity answers to the address, at an instant that
/// the clock can show. A peer whose address is on no record is dropped,
/// whatever the clock says.
pub fn screen<S: StorageBackend>(store: &S, address: String) -> (opened: (Gate, GateAction))
    requires
        store.inv(),
    ensures
        opened.1 == GateAction::Dial || opened.1 == GateAction::Drop,
        opened.1 == GateAction::Dial <==> opened.0.state() == GateState::Dialing,
        opened.1 == GateAction::Drop <==> opened.0.state() == GateState::Closed,
        opened.1 == GateAction::Dial ==> answered_now(store.keys(), address@, true),
        !has_public_key(store.keys(), address@) ==> opened.1 == GateAction::Drop,
{
    let selector = peer_selector(address);
    let check = is_authorized(store, &selector);
    let mut gate = Gate::new();
    let action = gate.on(admission(check));
    (gate, action)
}

} // verus!
