//! One client's session: two concurrent flows, inbound and outbound, that
//! end together, and the reconciliation that follows.
//!
//! The flows themselves wait on the transport and on the subscription, which
//! is the caller's work. What to do with each thing that arrives is decided
//! here.

use crate::fanout::{Delivery, Publication, Subscription, CAPACITY};
use crate::membership::{lists, Membership};
use crate::msg::Msg;
use crate::state::{applied, departed_rooms, ChatState, Departure};
use std::sync::Arc;
use vstd::prelude::*;

verus! {

/// One of the two flows of a session.
#[derive(Debug, Clone, Copy, PartialEq, Eq, Structural)]
pub enum Flow {
    /// Reads frames from the client, decodes and applies them.
    Inbound,
    /// Takes envelopes from the subscription and writes them to the client.
    Outbound,
}

/// Where a session stands in its life.
#[derive(Debug, Clone, Copy, PartialEq, Eq, Structural)]
pub enum Phase {
    /// Both flows are running.
    Active,
    /// One flow has ended, which the phase remembers as the trigger; the
    /// other is being stopped.
    Closing { trigger: Flow },
    /// Both flows have stopped and the departure has been announced.
    Closed { trigger: Flow },
}

/// Whether a flow goes on after a step.
#[derive(Debug, Clone, Copy, PartialEq, Eq, Structural)]
pub enum FlowStep {
    /// The flow takes its next item.
    Continue,
    /// The flow ends.
    Stop,
}

/// What the inbound flow got from the transport.
#[derive(Debug, PartialEq, Eq)]
pub enum Inbound {
    /// A text frame that decoded to an envelope.
    Envelope(Msg),
    /// A text frame that did not decode.
    Malformed,
    /// A frame that carries no text.
    NotText,
    /// The client closed the stream.
    Closed,
    /// Reading failed.
    Failed,
}

/// What the outbound flow does with what its subscription gave.
#[derive(Debug, PartialEq, Eq)]
pub enum OutboundStep {
    /// Encode this envelope and write it to the client.
    Write(Arc<Msg>),
    /// Nothing to write yet: look again.
    Wait,
    /// The flow ends.
    Stop,
}

impl Flow {
    /// The other flow of the same session.
    pub open spec fn sibling_spec(self) -> Flow {
        match self {
            Flow::Inbound => Flow::Outbound,
            Flow::Outbound => Flow::Inbound,
        }
    }

    /// The other flow of the same session.
    #[verifier::when_used_as_spec(sibling_spec)]
    pub fn sibling(self) -> (other: Flow)
        ensures
            other == self.sibling_spec(),
    {
        match self {
            Flow::Inbound => Flow::Outbound,
            Flow::Outbound => Flow::Inbound,
        }
    }
}

impl Phase {
    /// The phase after `flow` has ended: the first flow to end takes an
    /// active session to closing and becomes its trigger; a later end
    /// changes nothing.
    pub open spec fn after_flow_end(self, flow: Flow) -> Phase {
        match self {
            Phase::Active => Phase::Closing { trigger: flow },
            _ => self,
        }
    }

    /// The flow to cancel when `flow` has ended: the sibling, if `flow` is
    /// the first to end; none otherwise, the sibling being stopped already.
    pub open spec fn to_cancel(self, flow: Flow) -> Option<Flow> {
        match self {
            Phase::Active => Some(flow.sibling()),
            _ => None,
        }
    }

    /// The phase after the departure has been announced: a closing session
    /// is closed; any other stays as it is.
    pub open spec fn after_reconcile(self) -> Phase {
        match self {
            Phase::Closing { trigger } => Phase::Closed { trigger },
            _ => self,
        }
    }

    /// How far the phase is along the one way that a session goes.
    pub open spec fn rank(self) -> nat {
        match self {
            Phase::Active => 0,
            Phase::Closing { .. } => 1,
            Phase::Closed { .. } => 2,
        }
    }
}

/// The directory after the inbound flow has handled `event`: an envelope is
/// applied, anything else changes nothing.
pub open spec fn after_inbound(m: Membership, event: Inbound) -> Membership {
    match event {
        Inbound::Envelope(msg) => applied(m, msg@),
        _ => m,
    }
}

/// Whether the inbound flow ends on `event`: it does when the stream is
/// closed or reading failed. A frame that does not decode, or carries no
/// text, is skipped.
pub open spec fn ends_inbound(event: Inbound) -> bool {
    event is Closed || event is Failed
}

/// What one step of the inbound flow came to.
#[derive(Debug, Clone, Copy, PartialEq, Eq)]
pub struct InboundOutcome {
    /// Whether the flow goes on.
    pub step: FlowStep,
    /// How the publish ended, where the step published an envelope; a
    /// publish that found no subscriber is for the caller to log.
    pub published: Option<Publication>,
}

/// One step of the inbound flow. An envelope is applied to the directory if
/// it is a join or a leave and, whatever it carries, published to every
/// subscriber; a frame that did not decode or carries no text is skipped;
/// the end of the stream or a failed read ends the flow.
pub fn inbound_step(state: &mut ChatState, event: Inbound) -> (outcome: InboundOutcome)
    ensures
        final(state)@ == after_inbound(old(state)@, event),
        final(state)@.wf(),
        outcome.step == (if ends_inbound(event) {
            FlowStep::Stop
        } else {
            FlowStep::Continue
        }),
        outcome.published is Some <==> event is Envelope,
        outcome.published matches Some(publication) ==> publication.counts_someone(),
{
    match event {
        Inbound::Envelope(msg) => {
            let publication = state.handle_message(msg);
            InboundOutcome { step: FlowStep::Continue, published: Some(publication) }
        },
        Inbound::Malformed => skipped(state, FlowStep::Continue),
        Inbound::NotText => skipped(state, FlowStep::Continue),
        Inbound::Closed => skipped(state, FlowStep::Stop),
        Inbound::Failed => skipped(state, FlowStep::Stop),
    }
}

/// The outcome of a step that leaves the relay as it is.
fn skipped(state: &ChatState, step: FlowStep) -> (outcome: InboundOutcome)
    ensures
        state@.wf(),
        outcome == (InboundOutcome { step, published: None }),
{
    proof {
        use_type_invariant(state);
    }
    InboundOutcome { step, published: None }
}

/// What the outbound flow does with a delivery, as a value.
pub open spec fn outbound_step_of(delivery: Delivery) -> OutboundStep {
    match delivery {
        Delivery::Message(msg) => OutboundStep::Write(msg),
        Delivery::Empty => OutboundStep::Wait,
        Delivery::Lagged(_) => OutboundStep::Stop,
        Delivery::Closed => OutboundStep::Stop,
    }
}

/// One step of the outbound flow: an envelope is to be written to the
/// client; an empty queue is to be looked at again; a subscriber that fell
/// behind is disconnected by that overflow, and a channel that is gone ends
/// the flow as well.
pub fn outbound_step(delivery: Delivery) -> (step: OutboundStep)
    ensures
        step == outbound_step_of(delivery),
{
    match delivery {
        Delivery::Message(msg) => OutboundStep::Write(msg),
        Delivery::Empty => OutboundStep::Wait,
        Delivery::Lagged(_) => OutboundStep::Stop,
        Delivery::Closed => OutboundStep::Stop,
    }
}

/// Whether the outbound flow goes on after a write: it ends when the write
/// failed.
pub fn after_write(written: bool) -> (step: FlowStep)
    ensures
        step == (if written {
            FlowStep::Continue
        } else {
            FlowStep::Stop
        }),
{
    if written {
        FlowStep::Continue
    } else {
        FlowStep::Stop
    }
}

/// A session: the identity it was opened for, fixed for its lifetime, and
/// its phase.
pub struct Session {
    identity: String,
    phase: Phase,
}

/// The mathematical value of a session.
pub struct SessionView {
    pub identity: Seq<char>,
    pub phase: Phase,
}

impl View for Session {
    type V = SessionView;

    closed spec fn view(&self) -> SessionView {
        SessionView { identity: self.identity@, phase: self.phase }
    }
}

impl Session {
    /// Opens a session for `identity`: subscribes to the fan-out channel
    /// first, so that nothing published from now on is missed, and starts
    /// active.
    pub fn open(identity: String, state: &ChatState) -> (opened: (Session, Subscription))
        ensures
            opened.0@ == (SessionView { identity: identity@, phase: Phase::Active }),
            opened.1.capacity() == CAPACITY,
    {
        let subscription = state.subscribe();
        (Session { identity, phase: Phase::Active }, subscription)
    }

    /// The identity that the session was opened for.
    pub fn identity(&self) -> (identity: &str)
        ensures
            identity@ == self@.identity,
    {
        self.identity.as_str()
    }

    /// The phase that the session is in.
    pub fn phase(&self) -> (phase: Phase)
        ensures
            phase == self@.phase,
    {
        self.phase
    }

    /// Records that `flow` has ended, and names the flow to cancel. The
    /// first flow to end is the trigger: the session goes from active to
    /// closing and the sibling is to be cancelled at once. A flow that ends
    /// later changes nothing and there is nothing to cancel.
    pub fn flow_ended(&mut self, flow: Flow) -> (cancel: Option<Flow>)
        ensures
            final(self)@.identity == old(self)@.identity,
            final(self)@.phase == old(self)@.phase.after_flow_end(flow),
            cancel == old(self)@.phase.to_cancel(flow),
    {
        match self.phase {
            Phase::Active => {
                self.phase = Phase::Closing { trigger: flow };
                Some(flow.sibling())
            },
            _ => None,
        }
    }

    /// Reconciles the end of the session with the other sessions. In a
    /// closing session a leave envelope is published for every room that
    /// the session's identity occupies, once per room, and the session is
    /// closed. In any other phase nothing is published and nothing changes:
    /// an active session has flows running, and a closed one has been
    /// reconciled already.
    pub fn reconcile(&mut self, state: &ChatState) -> (departures: Vec<Departure>)
        ensures
            final(self)@.identity == old(self)@.identity,
            final(self)@.phase == old(self)@.phase.after_reconcile(),
            old(self)@.phase is Closing ==> lists(
                departed_rooms(departures@),
                state@.rooms_of(old(self)@.identity),
            ),
            old(self)@.phase is Closing ==> departures.len() == state@.rooms_of(
                old(self)@.identity,
            ).len(),
            !(old(self)@.phase is Closing) ==> departures.len() == 0,
            forall|i: int|
                0 <= i < departures.len() ==> (#[trigger] departures[i]).outcome.counts_someone(),
    {
        match self.phase {
            Phase::Closing { trigger } => {
                let departures = state.announce_departure(self.identity.as_str());
                self.phase = Phase::Closed { trigger };
                departures
            },
            _ => Vec::new(),
        }
    }
}

/// A session only ever moves forward: no step takes it back to an earlier
/// phase.
pub proof fn phases_only_advance(phase: Phase, flow: Flow)
    ensures
        phase.rank() <= phase.after_flow_end(flow).rank(),
        phase.rank() <= phase.after_reconcile().rank(),
{
}

/// Closed is terminal: no step changes a closed session.
pub proof fn closed_is_terminal(phase: Phase, flow: Flow)
    requires
        phase is Closed,
    ensures
        phase.after_flow_end(flow) == phase,
        phase.after_reconcile() == phase,
        phase.to_cancel(flow) is None,
{
}

/// Exactly one flow is the trigger: whichever flow ends first is remembered
/// through closing and closed, its sibling is the one cancelled, and a later
/// end of either flow neither replaces the trigger nor cancels anything.
pub proof fn one_trigger(first: Flow, later: Flow)
    ensures
        Phase::Active.after_flow_end(first) == (Phase::Closing { trigger: first }),
        Phase::Active.to_cancel(first) == Some(first.sibling()),
        first.sibling() != first,
        Phase::Active.after_flow_end(first).after_flow_end(later) == (Phase::Closing {
            trigger: first,
        }),
        Phase::Active.after_flow_end(first).to_cancel(later) is None,
        Phase::Active.after_flow_end(first).after_reconcile() == (Phase::Closed { trigger: first }),
{
}

} // verus!
