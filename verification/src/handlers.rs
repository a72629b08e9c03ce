//! Connection handlers: what the broker does with each thing that happens on
//! a producer or a consumer connection.
//!
//! A connection is driven from outside: the transport reads a frame, turns it
//! into an event and hands it to the handler here, under the registry's lock.
//! The handler changes the registry, enqueues what the peer is owed, fans the
//! event out to the consumers, and says which state the connection is in now.

use crate::outbox::{try_enqueue, SendOutcome};
use crate::protocol::{
    session_info_views, ActionPayload, ActionResultToDashboardPayload, AppMessage,
    DashboardActionPayload, DashboardMessageView, DashboardToServiceMessage, LogEntry,
    RegisterPayload, RegisteredPayload, ServiceToAppMessage, ServiceToDashboardMessage,
    SessionDataPayload, SessionEndedPayload, SessionInfo, SessionInfoView, SessionLogPayload,
    SessionStartedPayload, SyncPayload, ValidationError,
};
use crate::session::{
    lemma_answered_id_is_minted, lemma_has_session, lemma_registration_keeps_active,
    lemma_registration_records_its_session, lemma_registrations_get_distinct_ids,
    lemma_with_session_lookup, session_ref_views, RegistryView, SessionManager, SessionView,
    SESSION_ID_LENGTH,
};
use crate::time::Timestamp;
use tokio::sync::mpsc::Sender;
use vstd::prelude::*;
use vstd::string::StringExecFns;

verus! {

/// Where a producer connection stands.
#[derive(Debug)]
pub enum ProducerState {
    /// Nothing but a REGISTER is taken.
    AwaitRegister,
    /// The connection is bound to a session.
    Registered { session_id: String },
    /// The connection is over.
    Terminal,
}

/// What the transport saw on a producer connection.
#[derive(Debug)]
pub enum ProducerEvent {
    /// A text frame that parsed.
    Message(AppMessage),
    /// A text frame that did not parse, or of an unknown type.
    Malformed,
    /// A binary, ping or pong frame.
    Ignored,
    /// A close frame, the end of the stream, or a transport error.
    Closed,
}

/// Where a consumer connection stands.
#[derive(Debug, Clone, Copy, PartialEq, Eq, Structural)]
pub enum ConsumerState {
    Attached,
    Terminal,
}

/// What the transport saw on a consumer connection.
#[derive(Debug)]
pub enum ConsumerEvent {
    Message(DashboardToServiceMessage),
    Malformed,
    Ignored,
    Closed,
}

/// Why a frame was dropped. The connection stays open in every case.
#[derive(Debug, Clone, Copy, PartialEq, Eq, Structural)]
pub enum DropReason {
    ParseFailure,
    ValidationFailure(ValidationError),
    SessionIdMismatch,
    DuplicateRegister,
    RegisterExpected,
    UnknownSessionAction,
    DetachedSessionAction,
}

impl DropReason {
    /// The warning that goes with the reason.
    pub open spec fn text(self) -> Seq<char> {
        match self {
            DropReason::ParseFailure => "Failed to parse message"@,
            DropReason::ValidationFailure(error) => "Message validation failed: "@ + error.text(),
            DropReason::SessionIdMismatch => "Session ID mismatch"@,
            DropReason::DuplicateRegister => "Received duplicate REGISTER message"@,
            DropReason::RegisterExpected => "Expected REGISTER message, got different message type"@,
            DropReason::UnknownSessionAction => "Session not found for ACTION"@,
            DropReason::DetachedSessionAction => "Session has no active app connection"@,
        }
    }

    /// Renders the reason for a log line.
    pub fn message(&self) -> (rendered: String)
        ensures
            rendered@ == self.text(),
    {
        match self {
            DropReason::ParseFailure => "Failed to parse message".to_owned(),
            DropReason::ValidationFailure(error) => {
                let mut rendered = "Message validation failed: ".to_owned();
                let detail = error.message();
                rendered.append(detail.as_str());
                rendered
            },
            DropReason::SessionIdMismatch => "Session ID mismatch".to_owned(),
            DropReason::DuplicateRegister => "Received duplicate REGISTER message".to_owned(),
            DropReason::RegisterExpected => "Expected REGISTER message, got different message type".to_owned(),
            DropReason::UnknownSessionAction => "Session not found for ACTION".to_owned(),
            DropReason::DetachedSessionAction => "Session has no active app connection".to_owned(),
        }
    }
}

/// What the broker made of an event.
#[derive(Debug, Clone, Copy, PartialEq, Eq, Structural)]
pub enum Disposition {
    /// The event took effect.
    Accepted,
    /// The frame was dropped with a warning.
    Dropped(DropReason),
    /// There was nothing to do.
    Ignored,
    /// The connection ended.
    Detached,
}

// === Producer side ===

/// What consumers are shown of a message accepted on the connection bound to
/// `session_id`.
pub open spec fn projection(message: AppMessage, session_id: String) -> Option<DashboardMessageView> {
    match message {
        AppMessage::Register { .. } => None,
        AppMessage::Data { timestamp, payload, .. } => Some(
            DashboardMessageView::SessionData {
                timestamp,
                data: SessionDataPayload { session_id, data: payload },
            },
        ),
        AppMessage::Log { timestamp, payload, .. } => Some(
            DashboardMessageView::SessionLog {
                timestamp,
                log: SessionLogPayload {
                    session_id,
                    log: LogEntry {
                        timestamp,
                        level: payload.level,
                        tag: payload.tag,
                        message: payload.message,
                        throwable: payload.throwable,
                    },
                },
            },
        ),
        AppMessage::ActionResult { timestamp, payload, .. } => Some(
            DashboardMessageView::ActionResult {
                timestamp,
                result: ActionResultToDashboardPayload {
                    session_id,
                    action_id: payload.action_id,
                    success: payload.success,
                    message: payload.message,
                    data: payload.data,
                },
            },
        ),
    }
}

/// The registry after a message is accepted on the connection bound to `id`.
pub open spec fn recorded(registry: RegistryView, id: Seq<char>, message: AppMessage) -> RegistryView {
    match message {
        AppMessage::Data { timestamp, payload, .. } => registry.with_data(id, timestamp, payload),
        AppMessage::Log { timestamp, payload, .. } => registry.with_log(id, timestamp, payload),
        _ => registry,
    }
}

/// One step of a producer connection, as a value.
pub struct ProducerTransition {
    pub registry: RegistryView,
    pub next: ProducerState,
    pub disposition: Disposition,
    /// What is enqueued toward the producer.
    pub reply: Option<ServiceToAppMessage>,
    /// What is fanned out to the consumers.
    pub event: Option<DashboardMessageView>,
}

/// A step that changes nothing and sends nothing.
pub open spec fn producer_stays(
    registry: RegistryView,
    state: ProducerState,
    disposition: Disposition,
) -> ProducerTransition {
    ProducerTransition { registry, next: state, disposition, reply: None, event: None }
}

/// The step taken on a REGISTER before registration: the producer is
/// registered, answered with the session's id, and announced with a snapshot
/// of the session on record under that id.
pub open spec fn register_transition(
    registry: RegistryView,
    register: RegisterPayload,
    outbox: Sender<ServiceToAppMessage>,
    now: Timestamp,
    fresh_id: String,
) -> ProducerTransition {
    let session_id = registry.registration_id(register, fresh_id);
    let registered = registry.registered(register, outbox, fresh_id, now);
    let session = registered.sessions[registered.index_of(session_id@)].snapshot();
    ProducerTransition {
        registry: registered,
        next: ProducerState::Registered { session_id },
        disposition: Disposition::Accepted,
        reply: Some(
            ServiceToAppMessage::Registered { timestamp: now, payload: RegisteredPayload { session_id } },
        ),
        event: Some(
            if registry.resumes(register) {
                DashboardMessageView::SessionResumed { session }
            } else {
                DashboardMessageView::SessionStarted { session }
            },
        ),
    }
}

/// The step taken on a message that arrives on the connection bound to
/// `session_id`: a second REGISTER is dropped; so is a message that names
/// another session, and one that fails validation, in that order.
pub open spec fn message_transition(
    registry: RegistryView,
    session_id: String,
    message: AppMessage,
) -> ProducerTransition {
    let state = ProducerState::Registered { session_id };
    match message.claimed_session() {
        None => producer_stays(registry, state, Disposition::Dropped(DropReason::DuplicateRegister)),
        Some(claimed) => if claimed@ != session_id@ {
            producer_stays(registry, state, Disposition::Dropped(DropReason::SessionIdMismatch))
        } else {
            match message.verdict() {
                Err(error) => producer_stays(
                    registry,
                    state,
                    Disposition::Dropped(DropReason::ValidationFailure(error)),
                ),
                Ok(()) => ProducerTransition {
                    registry: recorded(registry, session_id@, message),
                    next: state,
                    disposition: Disposition::Accepted,
                    reply: None,
                    event: projection(message, session_id),
                },
            }
        },
    }
}

/// The producer connection's state machine: what one event does, given the
/// clock's reading and the id that a new session would get.
pub open spec fn producer_transition(
    registry: RegistryView,
    state: ProducerState,
    event: ProducerEvent,
    outbox: Sender<ServiceToAppMessage>,
    now: Timestamp,
    fresh_id: String,
) -> ProducerTransition {
    match state {
        ProducerState::Terminal => producer_stays(registry, state, Disposition::Ignored),
        ProducerState::AwaitRegister => match event {
            ProducerEvent::Closed => ProducerTransition {
                registry,
                next: ProducerState::Terminal,
                disposition: Disposition::Detached,
                reply: None,
                event: None,
            },
            ProducerEvent::Ignored => producer_stays(registry, state, Disposition::Ignored),
            ProducerEvent::Malformed => producer_stays(
                registry,
                state,
                Disposition::Dropped(DropReason::ParseFailure),
            ),
            ProducerEvent::Message(AppMessage::Register { payload, .. }) => register_transition(
                registry,
                payload,
                outbox,
                now,
                fresh_id,
            ),
            ProducerEvent::Message(_) => producer_stays(
                registry,
                state,
                Disposition::Dropped(DropReason::RegisterExpected),
            ),
        },
        ProducerState::Registered { session_id } => match event {
            ProducerEvent::Closed => ProducerTransition {
                registry: registry.with_session_ended(session_id@, now),
                next: ProducerState::Terminal,
                disposition: Disposition::Detached,
                reply: None,
                event: Some(
                    DashboardMessageView::SessionEnded {
                        timestamp: now,
                        ended: SessionEndedPayload { session_id },
                    },
                ),
            },
            ProducerEvent::Ignored => producer_stays(registry, state, Disposition::Ignored),
            ProducerEvent::Malformed => producer_stays(
                registry,
                state,
                Disposition::Dropped(DropReason::ParseFailure),
            ),
            ProducerEvent::Message(message) => message_transition(registry, session_id, message),
        },
    }
}

/// What one step of a producer connection came to.
#[derive(Debug)]
pub struct ProducerStep {
    pub next: ProducerState,
    pub disposition: Disposition,
    /// To be enqueued toward the producer.
    pub reply: Option<ServiceToAppMessage>,
    /// To be fanned out to the consumers.
    pub event: Option<ServiceToDashboardMessage>,
}

impl ProducerStep {
    /// Whether the step is the one that `transition` describes.
    pub open spec fn matches_transition(self, transition: ProducerTransition) -> bool {
        &&& self.next == transition.next
        &&& self.disposition == transition.disposition
        &&& self.reply == transition.reply
        &&& match self.event {
            Some(event) => transition.event == Some(event@),
            None => transition.event is None,
        }
    }
}

/// A step that changes nothing and sends nothing.
fn producer_stay(state: ProducerState, disposition: Disposition) -> (step: ProducerStep)
    ensures
        step == (ProducerStep { next: state, disposition, reply: None, event: None }),
{
    ProducerStep { next: state, disposition, reply: None, event: None }
}

/// Registers the producer behind `outbox` and prepares the reply and the
/// announcement.
fn register_producer(
    manager: &mut SessionManager,
    register: RegisterPayload,
    outbox: &Sender<ServiceToAppMessage>,
    now: Timestamp,
    fresh_id: String,
) -> (step: ProducerStep)
    ensures
        old(manager)@.wf() ==> final(manager)@.wf(),
        final(manager)@ == register_transition(old(manager)@, register, *outbox, now, fresh_id).registry,
        step.matches_transition(
            register_transition(old(manager)@, register, *outbox, now, fresh_id),
        ),
{
    let (session_id, resumed) = manager.create_session_with(register, outbox.clone(), fresh_id, now);
    let session = match manager.get_session(session_id.as_str()) {
        Some(session) => session.to_session_info(),
        None => {
            assert(false);
            vstd::pervasive::unreached()
        },
    };
    let reply = ServiceToAppMessage::Registered {
        timestamp: now,
        payload: RegisteredPayload { session_id: session_id.clone() },
    };
    let event = if resumed {
        ServiceToDashboardMessage::SessionResumed { payload: SessionStartedPayload { session } }
    } else {
        ServiceToDashboardMessage::SessionStarted { payload: SessionStartedPayload { session } }
    };
    ProducerStep {
        next: ProducerState::Registered { session_id },
        disposition: Disposition::Accepted,
        reply: Some(reply),
        event: Some(event),
    }
}

/// Takes a message that arrived on the connection bound to `session_id`.
fn accept_message(manager: &mut SessionManager, session_id: String, message: AppMessage) -> (step:
    ProducerStep)
    ensures
        old(manager)@.wf() ==> final(manager)@.wf(),
        final(manager)@ == message_transition(old(manager)@, session_id, message).registry,
        step.matches_transition(message_transition(old(manager)@, session_id, message)),
{
    let verdict = message.validate();
    match message {
        AppMessage::Register { .. } => producer_stay(
            ProducerState::Registered { session_id },
            Disposition::Dropped(DropReason::DuplicateRegister),
        ),
        AppMessage::Data { timestamp, session_id: claimed, payload } => {
            if !(claimed == session_id) {
                return producer_stay(
                    ProducerState::Registered { session_id },
                    Disposition::Dropped(DropReason::SessionIdMismatch),
                );
            }
            let _ = manager.add_data(session_id.as_str(), timestamp, payload.clone());
            let event = ServiceToDashboardMessage::SessionData {
                timestamp,
                payload: SessionDataPayload { session_id: session_id.clone(), data: payload },
            };
            ProducerStep {
                next: ProducerState::Registered { session_id },
                disposition: Disposition::Accepted,
                reply: None,
                event: Some(event),
            }
        },
        AppMessage::Log { timestamp, session_id: claimed, payload } => {
            if !(claimed == session_id) {
                return producer_stay(
                    ProducerState::Registered { session_id },
                    Disposition::Dropped(DropReason::SessionIdMismatch),
                );
            }
            if let Err(error) = verdict {
                return producer_stay(
                    ProducerState::Registered { session_id },
                    Disposition::Dropped(DropReason::ValidationFailure(error)),
                );
            }
            let _ = manager.add_log(session_id.as_str(), timestamp, payload.clone());
            let event = ServiceToDashboardMessage::SessionLog {
                timestamp,
                payload: SessionLogPayload {
                    session_id: session_id.clone(),
                    log: LogEntry {
                        timestamp,
                        level: payload.level,
                        tag: payload.tag,
                        message: payload.message,
                        throwable: payload.throwable,
                    },
                },
            };
            ProducerStep {
                next: ProducerState::Registered { session_id },
                disposition: Disposition::Accepted,
                reply: None,
                event: Some(event),
            }
        },
        AppMessage::ActionResult { timestamp, session_id: claimed, payload } => {
            if !(claimed == session_id) {
                return producer_stay(
                    ProducerState::Registered { session_id },
                    Disposition::Dropped(DropReason::SessionIdMismatch),
                );
            }
            let event = ServiceToDashboardMessage::ActionResult {
                timestamp,
                payload: ActionResultToDashboardPayload {
                    session_id: session_id.clone(),
                    action_id: payload.action_id,
                    success: payload.success,
                    message: payload.message,
                    data: payload.data,
                },
            };
            ProducerStep {
                next: ProducerState::Registered { session_id },
                disposition: Disposition::Accepted,
                reply: None,
                event: Some(event),
            }
        },
    }
}

/// Takes one event on a producer connection whose outbox is `outbox`: changes
/// the registry and says what is to be sent. `now` stands for the clock's
/// reading and `fresh_id` for the id that a new session gets.
pub fn apply_app_event(
    manager: &mut SessionManager,
    state: ProducerState,
    event: ProducerEvent,
    outbox: &Sender<ServiceToAppMessage>,
    now: Timestamp,
    fresh_id: String,
) -> (step: ProducerStep)
    ensures
        old(manager)@.wf() ==> final(manager)@.wf(),
        final(manager)@ == producer_transition(
            old(manager)@,
            state,
            event,
            *outbox,
            now,
            fresh_id,
        ).registry,
        step.matches_transition(
            producer_transition(old(manager)@, state, event, *outbox, now, fresh_id),
        ),
{
    match state {
        ProducerState::Terminal => producer_stay(ProducerState::Terminal, Disposition::Ignored),
        ProducerState::AwaitRegister => match event {
            ProducerEvent::Closed => producer_stay(ProducerState::Terminal, Disposition::Detached),
            ProducerEvent::Ignored => producer_stay(ProducerState::AwaitRegister, Disposition::Ignored),
            ProducerEvent::Malformed => producer_stay(
                ProducerState::AwaitRegister,
                Disposition::Dropped(DropReason::ParseFailure),
            ),
            ProducerEvent::Message(message) => match message {
                AppMessage::Register { payload, .. } => register_producer(
                    manager,
                    payload,
                    outbox,
                    now,
                    fresh_id,
                ),
                _ => producer_stay(
                    ProducerState::AwaitRegister,
                    Disposition::Dropped(DropReason::RegisterExpected),
                ),
            },
        },
        ProducerState::Registered { session_id } => match event {
            ProducerEvent::Closed => {
                manager.end_session_at(session_id.as_str(), now);
                let ended = ServiceToDashboardMessage::SessionEnded {
                    timestamp: now,
                    payload: SessionEndedPayload { session_id },
                };
                ProducerStep {
                    next: ProducerState::Terminal,
                    disposition: Disposition::Detached,
                    reply: None,
                    event: Some(ended),
                }
            },
            ProducerEvent::Ignored => producer_stay(
                ProducerState::Registered { session_id },
                Disposition::Ignored,
            ),
            ProducerEvent::Malformed => producer_stay(
                ProducerState::Registered { session_id },
                Disposition::Dropped(DropReason::ParseFailure),
            ),
            ProducerEvent::Message(message) => accept_message(manager, session_id, message),
        },
    }
}

// === Fan-out ===

/// A copy of a message on its way to one consumer's outbox.
#[derive(Debug)]
pub struct ConsumerDispatch {
    pub outbox: Sender<ServiceToDashboardMessage>,
    pub message: ServiceToDashboardMessage,
}

/// One attempt of a fan-out: the outbox it was made on, and what became of
/// it.
#[derive(Debug)]
pub struct Attempt {
    pub outbox: Sender<ServiceToDashboardMessage>,
    pub outcome: SendOutcome,
}

/// Tells the attempts that lost the message.
pub open spec fn lost_pred() -> spec_fn(Attempt) -> bool {
    |attempt: Attempt| attempt.outcome != SendOutcome::Delivered
}

/// The outboxes that `attempts` were made on, in order.
pub open spec fn attempted_outboxes(attempts: Seq<Attempt>) -> Seq<Sender<ServiceToDashboardMessage>> {
    Seq::new(attempts.len(), |i: int| attempts[i].outbox)
}

/// How one fan-out went: for each attached consumer, in the order they
/// attached, the attempt made on its outbox.
#[derive(Debug)]
pub struct BroadcastReport {
    pub attempts: Vec<Attempt>,
}

impl BroadcastReport {
    /// How many outboxes lost the message because they were full or closed.
    pub open spec fn lost_count(self) -> nat {
        self.attempts@.filter(lost_pred()).len()
    }

    /// The report of a fan-out to nobody.
    pub fn empty() -> (report: BroadcastReport)
        ensures
            report.attempts@ == Seq::<Attempt>::empty(),
    {
        BroadcastReport { attempts: Vec::new() }
    }

    /// Records the attempt on the next consumer.
    pub fn note(&mut self, attempt: Attempt)
        ensures
            final(self).attempts@ == old(self).attempts@.push(attempt),
    {
        self.attempts.push(attempt);
    }

    /// How many outboxes the message was offered to.
    pub fn attempted(&self) -> (count: usize)
        ensures
            count == self.attempts@.len(),
    {
        self.attempts.len()
    }

    /// What became of each attempt, in order.
    pub fn outcomes(&self) -> (outcomes: Vec<SendOutcome>)
        ensures
            outcomes@ == Seq::new(self.attempts@.len(), |i: int| self.attempts@[i].outcome),
    {
        let mut outcomes: Vec<SendOutcome> = Vec::new();
        let mut index: usize = 0;
        while index < self.attempts.len()
            invariant
                index <= self.attempts@.len(),
                outcomes@ == Seq::new(index as nat, |i: int| self.attempts@[i].outcome),
            decreases self.attempts@.len() - index,
        {
            outcomes.push(self.attempts[index].outcome);
            index = index + 1;
            assert(outcomes@ =~= Seq::new(index as nat, |i: int| self.attempts@[i].outcome));
        }
        outcomes
    }

    /// How many outboxes lost the message.
    pub fn lost(&self) -> (count: usize)
        ensures
            count == self.lost_count(),
    {
        let mut count: usize = 0;
        let mut index: usize = 0;
        proof {
            reveal(Seq::filter);
            assert(self.attempts@.take(0) =~= Seq::empty());
        }
        while index < self.attempts.len()
            invariant
                index <= self.attempts@.len(),
                count <= index,
                count == self.attempts@.take(index as int).filter(lost_pred()).len(),
            decreases self.attempts@.len() - index,
        {
            proof {
                reveal(Seq::filter);
                assert(self.attempts@.take(index + 1).drop_last() =~= self.attempts@.take(
                    index as int,
                ));
            }
            match self.attempts[index].outcome {
                SendOutcome::Delivered => {},
                _ => {
                    count = count + 1;
                },
            }
            index = index + 1;
        }
        assert(self.attempts@.take(index as int) =~= self.attempts@);
        count
    }
}

/// What a fan-out of `message` hands to whom: one copy for the outbox of each
/// attached consumer, in the order they attached.
pub fn fan_out_plan(manager: &SessionManager, message: &ServiceToDashboardMessage) -> (plan: Vec<
    ConsumerDispatch,
>)
    ensures
        plan@.len() == manager@.consumers.len(),
        forall|i: int|
            0 <= i < plan@.len() ==> (#[trigger] plan@[i]).outbox == manager@.consumers[i]
                && plan@[i].message@ == message@,
{
    let senders = manager.get_dashboard_senders();
    let mut plan: Vec<ConsumerDispatch> = Vec::new();
    let mut index: usize = 0;
    while index < senders.len()
        invariant
            index <= senders@.len(),
            senders@ == manager@.consumers,
            plan@.len() == index,
            forall|i: int|
                0 <= i < plan@.len() ==> (#[trigger] plan@[i]).outbox == manager@.consumers[i]
                    && plan@[i].message@ == message@,
        decreases senders@.len() - index,
    {
        plan.push(ConsumerDispatch { outbox: senders[index].clone(), message: message.clone() });
        index = index + 1;
    }
    plan
}

/// Offers the message of `dispatch` to its outbox, once, without waiting. The
/// attempt is made on that outbox; what became of it is the queue's to say.
pub fn perform(dispatch: ConsumerDispatch) -> (attempt: Attempt)
    ensures
        attempt.outbox == dispatch.outbox,
{
    let outcome = try_enqueue(&dispatch.outbox, dispatch.message);
    Attempt { outbox: dispatch.outbox, outcome }
}

/// Offers a copy of `message` to every attached consumer's outbox, once each,
/// in the order they attached. An outbox that is full or closed loses the
/// message, alone; the report says which.
pub fn broadcast_to_dashboards(manager: &SessionManager, message: &ServiceToDashboardMessage) -> (report:
    BroadcastReport)
    ensures
        attempted_outboxes(report.attempts@) == manager@.consumers,
{
    let plan = fan_out_plan(manager, message);
    let ghost planned = plan@;
    let mut report = BroadcastReport::empty();
    for dispatch in dispatches: plan
        invariant
            dispatches.seq() == planned,
            planned.len() == manager@.consumers.len(),
            forall|i: int|
                0 <= i < planned.len() ==> (#[trigger] planned[i]).outbox == manager@.consumers[i],
            report.attempts@.len() == dispatches.index(),
            forall|i: int|
                0 <= i < report.attempts@.len() ==> (#[trigger] report.attempts@[i]).outbox
                    == manager@.consumers[i],
    {
        let attempt = perform(dispatch);
        report.note(attempt);
    }
    assert(attempted_outboxes(report.attempts@) =~= manager@.consumers);
    report
}

/// What one event on a producer connection came to.
#[derive(Debug)]
pub struct ProducerOutcome {
    pub next: ProducerState,
    pub disposition: Disposition,
    /// What became of the reply, if one was owed.
    pub reply: Option<SendOutcome>,
    /// How the fan-out went, if there was one.
    pub broadcast: Option<BroadcastReport>,
}

impl ProducerOutcome {
    /// Whether the outcome, with the registry left as `registry`, is what
    /// `transition` describes: the same registry, state and disposition, a
    /// reply attempted exactly when one is owed, and, exactly when there is
    /// an event, a fan-out with one attempt on the outbox of each attached
    /// consumer, in the order they attached.
    pub open spec fn follows(self, registry: RegistryView, transition: ProducerTransition) -> bool {
        &&& registry == transition.registry
        &&& self.next == transition.next
        &&& self.disposition == transition.disposition
        &&& self.reply is Some == transition.reply is Some
        &&& self.broadcast is Some == transition.event is Some
        &&& self.broadcast matches Some(report) ==> attempted_outboxes(report.attempts@)
            == transition.registry.consumers
    }
}

/// Whether `event` opens a registration: a REGISTER on a connection that
/// awaits one.
pub open spec fn is_registration(state: ProducerState, event: ProducerEvent) -> bool {
    state is AwaitRegister && event is Message && event->Message_0 is Register
}

/// Whether the event opens a registration, which may need a new id: a
/// REGISTER on a connection that awaits one.
fn opens_registration(state: &ProducerState, event: &ProducerEvent) -> (opens: bool)
    ensures
        opens == is_registration(*state, *event),
{
    match state {
        ProducerState::AwaitRegister => match event {
            ProducerEvent::Message(AppMessage::Register { .. }) => true,
            _ => false,
        },
        _ => false,
    }
}

/// Handles one event on a producer connection whose outbox is `outbox`:
/// reads the clock, takes the step, enqueues the reply toward the producer and
/// fans the event out to the consumers.
///
/// The registry, the next state and the disposition are those of the state
/// machine for some reading of the clock and, where a registration opens,
/// some minted id. Whether the outboxes took what was offered is in the
/// outcome.
pub fn handle_app_event(
    manager: &mut SessionManager,
    state: ProducerState,
    event: ProducerEvent,
    outbox: &Sender<ServiceToAppMessage>,
) -> (outcome: ProducerOutcome)
    ensures
        old(manager)@.wf() ==> final(manager)@.wf(),
        exists|now: Timestamp, fresh_id: String|
            {
                &&& is_registration(state, event) ==> fresh_id@.len() == SESSION_ID_LENGTH
                &&& outcome.follows(
                    final(manager)@,
                    #[trigger] producer_transition(
                        old(manager)@,
                        state,
                        event,
                        *outbox,
                        now,
                        fresh_id,
                    ),
                )
            },
{
    let fresh_id = if opens_registration(&state, &event) {
        crate::session::new_session_id()
    } else {
        String::new()
    };
    let now = Timestamp::now();
    let step = apply_app_event(manager, state, event, outbox, now, fresh_id);
    let reply = match step.reply {
        Some(message) => Some(try_enqueue(outbox, message)),
        None => None,
    };
    let broadcast = match &step.event {
        Some(message) => Some(broadcast_to_dashboards(manager, message)),
        None => None,
    };
    ProducerOutcome { next: step.next, disposition: step.disposition, reply, broadcast }
}

// === Consumer side ===

/// The snapshots of `sessions`, in order.
pub open spec fn snapshots(sessions: Seq<SessionView>) -> Seq<SessionInfoView> {
    Seq::new(sessions.len(), |i: int| sessions[i].snapshot())
}

/// Attaches a consumer's outbox and returns the SYNC that the consumer is to
/// see before anything else: the snapshots of the sessions whose producer is
/// attached.
pub fn attach_dashboard(manager: &mut SessionManager, outbox: Sender<ServiceToDashboardMessage>) -> (sync:
    ServiceToDashboardMessage)
    ensures
        final(manager)@ == old(manager)@.with_consumer(outbox),
        sync@ == (DashboardMessageView::Sync { sessions: snapshots(old(manager)@.active_sessions()) }),
{
    manager.add_dashboard_sender(outbox);
    let active = manager.get_active_sessions();
    let mut sessions: Vec<SessionInfo> = Vec::new();
    let mut index: usize = 0;
    while index < active.len()
        invariant
            index <= active@.len(),
            session_info_views(sessions@) == snapshots(session_ref_views(active@)).take(index as int),
        decreases active@.len() - index,
    {
        let info = active[index].to_session_info();
        let ghost before = sessions@;
        sessions.push(info);
        proof {
            assert(session_info_views(sessions@) =~= session_info_views(before).push(info@));
            assert(snapshots(session_ref_views(active@)).take(index + 1) =~= snapshots(
                session_ref_views(active@),
            ).take(index as int).push(info@));
        }
        index = index + 1;
    }
    proof {
        assert(snapshots(session_ref_views(active@)).take(index as int) =~= snapshots(
            session_ref_views(active@),
        ));
    }
    ServiceToDashboardMessage::Sync { payload: SyncPayload { sessions } }
}

/// A message on its way to a producer's outbox.
#[derive(Debug)]
pub struct Dispatch {
    pub outbox: Sender<ServiceToAppMessage>,
    pub message: ServiceToAppMessage,
}

/// One step of a consumer connection, as a value.
pub struct ConsumerTransition {
    pub registry: RegistryView,
    pub next: ConsumerState,
    pub disposition: Disposition,
    /// What is enqueued toward a producer.
    pub dispatch: Option<Dispatch>,
}

/// The name of the action that also empties the session's record of network
/// requests.
pub open spec fn network_clear() -> Seq<char> {
    "network_clear"@
}

/// The step taken on an ACTION: the action goes to the outbox of the session
/// it names, if that session is on record and its producer attached.
pub open spec fn action_transition(registry: RegistryView, action: DashboardActionPayload, now: Timestamp) -> ConsumerTransition {
    let cleared = if action.action@ == network_clear() {
        registry.with_network_cleared(action.session_id@)
    } else {
        registry
    };
    match cleared.session(action.session_id@) {
        None => ConsumerTransition {
            registry: cleared,
            next: ConsumerState::Attached,
            disposition: Disposition::Dropped(DropReason::UnknownSessionAction),
            dispatch: None,
        },
        Some(session) => match session.app_sender {
            None => ConsumerTransition {
                registry: cleared,
                next: ConsumerState::Attached,
                disposition: Disposition::Dropped(DropReason::DetachedSessionAction),
                dispatch: None,
            },
            Some(outbox) => ConsumerTransition {
                registry: cleared,
                next: ConsumerState::Attached,
                disposition: Disposition::Accepted,
                dispatch: Some(
                    Dispatch {
                        outbox,
                        message: ServiceToAppMessage::Action {
                            timestamp: now,
                            session_id: action.session_id,
                            payload: ActionPayload {
                                action_id: action.action_id,
                                action: action.action,
                                args: action.args,
                            },
                        },
                    },
                ),
            },
        },
    }
}

/// The consumer connection's state machine: what one event does, given the
/// clock's reading.
pub open spec fn consumer_transition(
    registry: RegistryView,
    state: ConsumerState,
    event: ConsumerEvent,
    outbox: Sender<ServiceToDashboardMessage>,
    now: Timestamp,
) -> ConsumerTransition {
    match state {
        ConsumerState::Terminal => ConsumerTransition {
            registry,
            next: ConsumerState::Terminal,
            disposition: Disposition::Ignored,
            dispatch: None,
        },
        ConsumerState::Attached => match event {
            ConsumerEvent::Closed => ConsumerTransition {
                registry: registry.without_consumer(outbox),
                next: ConsumerState::Terminal,
                disposition: Disposition::Detached,
                dispatch: None,
            },
            ConsumerEvent::Ignored => ConsumerTransition {
                registry,
                next: ConsumerState::Attached,
                disposition: Disposition::Ignored,
                dispatch: None,
            },
            ConsumerEvent::Malformed => ConsumerTransition {
                registry,
                next: ConsumerState::Attached,
                disposition: Disposition::Dropped(DropReason::ParseFailure),
                dispatch: None,
            },
            ConsumerEvent::Message(DashboardToServiceMessage::Action { payload }) => action_transition(
                registry,
                payload,
                now,
            ),
        },
    }
}

/// What one step of a consumer connection came to.
#[derive(Debug)]
pub struct ConsumerStep {
    pub next: ConsumerState,
    pub disposition: Disposition,
    /// To be enqueued toward a producer.
    pub dispatch: Option<Dispatch>,
}

/// Routes an ACTION to the session it names.
fn route_action(manager: &mut SessionManager, action: DashboardActionPayload, now: Timestamp) -> (step:
    ConsumerStep)
    ensures
        old(manager)@.wf() ==> final(manager)@.wf(),
        final(manager)@ == action_transition(old(manager)@, action, now).registry,
        step.next == action_transition(old(manager)@, action, now).next,
        step.disposition == action_transition(old(manager)@, action, now).disposition,
        step.dispatch == action_transition(old(manager)@, action, now).dispatch,
{
    if action.action == "network_clear".to_owned() {
        match manager.get_session_mut(action.session_id.as_str()) {
            Some(session) => {
                session.clear_network_requests();
            },
            None => {},
        }
        proof {
            if old(manager)@.has_session(action.session_id@) {
                lemma_has_session(old(manager)@, action.session_id@);
            }
        }
    }
    let outbox = match manager.get_session(action.session_id.as_str()) {
        Some(session) => match session.app_outbox() {
            Some(outbox) => outbox,
            None => {
                return ConsumerStep {
                    next: ConsumerState::Attached,
                    disposition: Disposition::Dropped(DropReason::DetachedSessionAction),
                    dispatch: None,
                };
            },
        },
        None => {
            return ConsumerStep {
                next: ConsumerState::Attached,
                disposition: Disposition::Dropped(DropReason::UnknownSessionAction),
                dispatch: None,
            };
        },
    };
    let message = ServiceToAppMessage::Action {
        timestamp: now,
        session_id: action.session_id,
        payload: ActionPayload { action_id: action.action_id, action: action.action, args: action.args },
    };
    ConsumerStep {
        next: ConsumerState::Attached,
        disposition: Disposition::Accepted,
        dispatch: Some(Dispatch { outbox, message }),
    }
}

/// Takes one event on the consumer connection whose outbox is `outbox`:
/// changes the registry and says what is to be sent. `now` stands for the
/// clock's reading.
pub fn apply_dashboard_event(
    manager: &mut SessionManager,
    state: ConsumerState,
    event: ConsumerEvent,
    outbox: &Sender<ServiceToDashboardMessage>,
    now: Timestamp,
) -> (step: ConsumerStep)
    ensures
        old(manager)@.wf() ==> final(manager)@.wf(),
        final(manager)@ == consumer_transition(old(manager)@, state, event, *outbox, now).registry,
        step.next == consumer_transition(old(manager)@, state, event, *outbox, now).next,
        step.disposition == consumer_transition(old(manager)@, state, event, *outbox, now).disposition,
        step.dispatch == consumer_transition(old(manager)@, state, event, *outbox, now).dispatch,
{
    match state {
        ConsumerState::Terminal => ConsumerStep {
            next: ConsumerState::Terminal,
            disposition: Disposition::Ignored,
            dispatch: None,
        },
        ConsumerState::Attached => match event {
            ConsumerEvent::Closed => {
                manager.remove_dashboard_sender(outbox);
                ConsumerStep {
                    next: ConsumerState::Terminal,
                    disposition: Disposition::Detached,
                    dispatch: None,
                }
            },
            ConsumerEvent::Ignored => ConsumerStep {
                next: ConsumerState::Attached,
                disposition: Disposition::Ignored,
                dispatch: None,
            },
            ConsumerEvent::Malformed => ConsumerStep {
                next: ConsumerState::Attached,
                disposition: Disposition::Dropped(DropReason::ParseFailure),
                dispatch: None,
            },
            ConsumerEvent::Message(message) => match message {
                DashboardToServiceMessage::Action { payload } => route_action(manager, payload, now),
            },
        },
    }
}

/// What one event on a consumer connection came to.
#[derive(Debug)]
pub struct ConsumerOutcome {
    pub next: ConsumerState,
    pub disposition: Disposition,
    /// What became of the action, if one was routed.
    pub delivery: Option<SendOutcome>,
}

impl ConsumerOutcome {
    /// Whether the outcome, with the registry left as `registry`, is what
    /// `transition` describes: the same registry, state and disposition, and
    /// a delivery attempted exactly when an action is routed.
    pub open spec fn follows(self, registry: RegistryView, transition: ConsumerTransition) -> bool {
        &&& registry == transition.registry
        &&& self.next == transition.next
        &&& self.disposition == transition.disposition
        &&& self.delivery is Some == transition.dispatch is Some
    }
}

/// Handles one event on the consumer connection whose outbox is `outbox`:
/// reads the clock, takes the step and enqueues the action toward its
/// producer.
///
/// The registry, the next state and the disposition are those of the state
/// machine for some reading of the clock. Whether the producer's outbox took
/// the action is in the outcome.
pub fn handle_dashboard_event(
    manager: &mut SessionManager,
    state: ConsumerState,
    event: ConsumerEvent,
    outbox: &Sender<ServiceToDashboardMessage>,
) -> (outcome: ConsumerOutcome)
    ensures
        old(manager)@.wf() ==> final(manager)@.wf(),
        exists|now: Timestamp|
            outcome.follows(
                final(manager)@,
                #[trigger] consumer_transition(old(manager)@, state, event, *outbox, now),
            ),
{
    let now = Timestamp::now();
    let step = apply_dashboard_event(manager, state, event, outbox, now);
    let delivery = match step.dispatch {
        Some(dispatch) => Some(try_enqueue(&dispatch.outbox, dispatch.message)),
        None => None,
    };
    ConsumerOutcome { next: step.next, disposition: step.disposition, delivery }
}

// === What holds of the state machines ===

/// A message that names the bound session and passes validation is accepted,
/// and what is fanned out for it is its projection.
pub proof fn lemma_accepted_message_is_projected(registry: RegistryView, session_id: String, message: AppMessage)
    requires
        message.claimed_session() matches Some(claimed) && claimed@ == session_id@,
        message.verdict() is Ok,
    ensures
        message_transition(registry, session_id, message).disposition == Disposition::Accepted,
        message_transition(registry, session_id, message).event == projection(message, session_id),
        projection(message, session_id) is Some,
{
}

/// Nothing is fanned out for an event that was dropped or ignored, and
/// nothing changes in the registry.
pub proof fn lemma_dropped_event_leaves_no_trace(
    registry: RegistryView,
    state: ProducerState,
    event: ProducerEvent,
    outbox: Sender<ServiceToAppMessage>,
    now: Timestamp,
    fresh_id: String,
)
    requires
        producer_transition(registry, state, event, outbox, now, fresh_id).disposition
            is Dropped || producer_transition(
            registry,
            state,
            event,
            outbox,
            now,
            fresh_id,
        ).disposition is Ignored,
    ensures
        producer_transition(registry, state, event, outbox, now, fresh_id) == producer_stays(
            registry,
            state,
            producer_transition(registry, state, event, outbox, now, fresh_id).disposition,
        ),
{
}

/// SESSION_ENDED is announced on exactly one kind of step: the one on which a
/// registered producer detaches. That step marks the producer's session
/// ended and leaves the connection in its terminal state.
pub proof fn lemma_session_ended_on_detach_only(
    registry: RegistryView,
    state: ProducerState,
    event: ProducerEvent,
    outbox: Sender<ServiceToAppMessage>,
    now: Timestamp,
    fresh_id: String,
)
    ensures
        producer_transition(registry, state, event, outbox, now, fresh_id).event matches Some(
            DashboardMessageView::SessionEnded { .. },
        ) <==> state is Registered && event is Closed,
        state is Registered && event is Closed ==> {
            let session_id = state->session_id;
            let transition = producer_transition(registry, state, event, outbox, now, fresh_id);
            &&& transition.registry == registry.with_session_ended(session_id@, now)
            &&& transition.next is Terminal
            &&& transition.event == Some(
                DashboardMessageView::SessionEnded {
                    timestamp: now,
                    ended: SessionEndedPayload { session_id },
                },
            )
        },
{
}

/// Once a producer connection is in its terminal state, nothing that happens
/// on it changes the registry or is announced: a session is ended once for
/// each detach.
pub proof fn lemma_terminal_is_final(
    registry: RegistryView,
    event: ProducerEvent,
    outbox: Sender<ServiceToAppMessage>,
    now: Timestamp,
    fresh_id: String,
)
    ensures
        producer_transition(registry, ProducerState::Terminal, event, outbox, now, fresh_id)
            == producer_stays(registry, ProducerState::Terminal, Disposition::Ignored),
{
}

/// No step of a producer connection other than its detach ends a session: a
/// session that was attached before the step is attached after it.
pub proof fn lemma_only_detach_ends_a_session(
    registry: RegistryView,
    state: ProducerState,
    event: ProducerEvent,
    outbox: Sender<ServiceToAppMessage>,
    now: Timestamp,
    fresh_id: String,
    id: Seq<char>,
)
    requires
        registry.wf(),
        !(state is Registered && event is Closed),
        registry.session(id) matches Some(session) && session.is_active(),
    ensures
        producer_transition(registry, state, event, outbox, now, fresh_id).registry.session(id) matches Some(
            session,
        ) && session.is_active(),
{
    match state {
        ProducerState::AwaitRegister => match event {
            ProducerEvent::Message(AppMessage::Register { payload, .. }) => {
                lemma_registration_keeps_active(registry, payload, outbox, fresh_id, now, id);
            },
            _ => {},
        },
        ProducerState::Registered { session_id } => match event {
            ProducerEvent::Message(AppMessage::Data { timestamp, payload, .. }) => {
                match registry.session(session_id@) {
                    Some(bound) => {
                        lemma_has_session(registry, session_id@);
                        lemma_with_session_lookup(
                            registry,
                            session_id@,
                            bound.with_data(timestamp, payload),
                            id,
                        );
                    },
                    None => {},
                }
            },
            ProducerEvent::Message(AppMessage::Log { timestamp, payload, .. }) => {
                match registry.session(session_id@) {
                    Some(bound) => {
                        lemma_has_session(registry, session_id@);
                        lemma_with_session_lookup(
                            registry,
                            session_id@,
                            bound.with_log(timestamp, payload),
                            id,
                        );
                    },
                    None => {},
                }
            },
            _ => {},
        },
        ProducerState::Terminal => {},
    }
}

/// In a well-formed registry, the session that a registration announces is
/// the one it resumed or opened: SESSION_RESUMED carries the resumed session
/// with its history, SESSION_STARTED the new session.
pub proof fn lemma_registration_announces_its_session(
    registry: RegistryView,
    register: RegisterPayload,
    outbox: Sender<ServiceToAppMessage>,
    now: Timestamp,
    fresh_id: String,
)
    requires
        registry.wf(),
    ensures
        register_transition(registry, register, outbox, now, fresh_id).event == Some(
            if registry.resumes(register) {
                DashboardMessageView::SessionResumed {
                    session: registry.registered_session(register, outbox, fresh_id, now).snapshot(),
                }
            } else {
                DashboardMessageView::SessionStarted {
                    session: registry.registered_session(register, outbox, fresh_id, now).snapshot(),
                }
            },
        ),
{
    lemma_registration_records_its_session(registry, register, outbox, fresh_id, now);
    let registered = registry.registered(register, outbox, fresh_id, now);
    lemma_has_session(registered, registry.registration_id(register, fresh_id)@);
}

// === A producer connection over its lifetime ===

/// One thing that happens on a producer connection, with the registry as it
/// stands at that moment (other connections change it in between), the
/// clock's reading and the id that a new session would get.
pub struct Occurrence {
    pub registry: RegistryView,
    pub event: ProducerEvent,
    pub now: Timestamp,
    pub fresh_id: String,
}

/// The step that `occurrence` makes a connection in `state` take.
pub open spec fn step_of(state: ProducerState, outbox: Sender<ServiceToAppMessage>, occurrence: Occurrence) -> ProducerTransition {
    producer_transition(
        occurrence.registry,
        state,
        occurrence.event,
        outbox,
        occurrence.now,
        occurrence.fresh_id,
    )
}

/// The state of a connection that starts in `state` after `history`.
pub open spec fn state_after(
    state: ProducerState,
    outbox: Sender<ServiceToAppMessage>,
    history: Seq<Occurrence>,
) -> ProducerState
    decreases history.len(),
{
    if history.len() == 0 {
        state
    } else {
        step_of(state_after(state, outbox, history.drop_last()), outbox, history.last()).next
    }
}

/// How often SESSION_ENDED is announced in the course of `history`.
pub open spec fn announced_ends(
    state: ProducerState,
    outbox: Sender<ServiceToAppMessage>,
    history: Seq<Occurrence>,
) -> nat
    decreases history.len(),
{
    if history.len() == 0 {
        0
    } else {
        let before = state_after(state, outbox, history.drop_last());
        let earlier = announced_ends(state, outbox, history.drop_last());
        if step_of(before, outbox, history.last()).event matches Some(
            DashboardMessageView::SessionEnded { .. },
        ) {
            earlier + 1
        } else {
            earlier
        }
    }
}

/// How often a registered producer detaches in the course of `history`.
pub open spec fn detaches(
    state: ProducerState,
    outbox: Sender<ServiceToAppMessage>,
    history: Seq<Occurrence>,
) -> nat
    decreases history.len(),
{
    if history.len() == 0 {
        0
    } else {
        let before = state_after(state, outbox, history.drop_last());
        let earlier = detaches(state, outbox, history.drop_last());
        if before is Registered && history.last().event is Closed {
            earlier + 1
        } else {
            earlier
        }
    }
}

/// Over the whole life of a producer connection, whatever happens on it and
/// whatever the registry holds at each moment: SESSION_ENDED is announced as
/// often as a registered producer detaches, which is at most once, and after
/// it the connection stays in its terminal state.
pub proof fn lemma_one_end_per_detach(outbox: Sender<ServiceToAppMessage>, history: Seq<Occurrence>)
    ensures
        announced_ends(ProducerState::AwaitRegister, outbox, history) == detaches(
            ProducerState::AwaitRegister,
            outbox,
            history,
        ),
        detaches(ProducerState::AwaitRegister, outbox, history) <= 1,
        detaches(ProducerState::AwaitRegister, outbox, history) == 1 ==> state_after(
            ProducerState::AwaitRegister,
            outbox,
            history,
        ) is Terminal,
    decreases history.len(),
{
    if history.len() > 0 {
        lemma_one_end_per_detach(outbox, history.drop_last());
    }
}

/// The session a consumer-bound message is about, if it is about one.
pub open spec fn subject(event: DashboardMessageView) -> Option<String> {
    match event {
        DashboardMessageView::Sync { .. } => None,
        DashboardMessageView::SessionStarted { session } => Some(session.session_id),
        DashboardMessageView::SessionResumed { session } => Some(session.session_id),
        DashboardMessageView::SessionData { data, .. } => Some(data.session_id),
        DashboardMessageView::SessionLog { log, .. } => Some(log.session_id),
        DashboardMessageView::SessionEnded { ended, .. } => Some(ended.session_id),
        DashboardMessageView::ActionResult { result, .. } => Some(result.session_id),
    }
}

/// A connection becomes bound to a session only by the step that announces
/// that session as started or resumed, and everything it announces afterwards
/// is about that session: a session's start precedes its data, logs, results
/// and end.
pub proof fn lemma_start_precedes_events(
    registry: RegistryView,
    state: ProducerState,
    event: ProducerEvent,
    outbox: Sender<ServiceToAppMessage>,
    now: Timestamp,
    fresh_id: String,
)
    requires
        registry.wf(),
    ensures
        ({
            let step = producer_transition(registry, state, event, outbox, now, fresh_id);
            &&& step.next is Registered && !(state is Registered) ==> {
                &&& step.event matches Some(announced)
                &&& announced is SessionStarted || announced is SessionResumed
                &&& subject(announced) == Some(step.next->session_id)
            }
            &&& state is Registered ==> {
                &&& step.next is Registered ==> step.next == state
                &&& step.event matches Some(announced) ==> {
                    &&& !(announced is SessionStarted || announced is SessionResumed)
                    &&& subject(announced) == Some(state->session_id)
                }
            }
            &&& !(state is Registered) && !(step.next is Registered) ==> step.event is None
        }),
{
    match state {
        ProducerState::AwaitRegister => match event {
            ProducerEvent::Message(AppMessage::Register { payload, .. }) => {
                lemma_registration_announces_its_session(registry, payload, outbox, now, fresh_id);
            },
            _ => {},
        },
        _ => {},
    }
}

/// A registration is answered with REGISTERED under the id the connection is
/// bound to from then on. Where the minted id and the ids on record are as
/// long as minted ids, so is that id: it is not empty.
pub proof fn lemma_registration_is_answered_with_its_id(
    registry: RegistryView,
    register: RegisterPayload,
    outbox: Sender<ServiceToAppMessage>,
    now: Timestamp,
    fresh_id: String,
)
    ensures
        ({
            let step = register_transition(registry, register, outbox, now, fresh_id);
            let session_id = registry.registration_id(register, fresh_id);
            &&& step.disposition == Disposition::Accepted
            &&& step.next == (ProducerState::Registered { session_id })
            &&& step.reply == Some(
                ServiceToAppMessage::Registered {
                    timestamp: now,
                    payload: RegisteredPayload { session_id },
                },
            )
            &&& registry.ids_minted() && fresh_id@.len() == SESSION_ID_LENGTH ==> session_id@.len()
                > 0 && step.registry.ids_minted()
        }),
{
    if registry.ids_minted() && fresh_id@.len() == SESSION_ID_LENGTH {
        lemma_answered_id_is_minted(registry, register, outbox, fresh_id, now);
    }
}

/// Two producers that register in turn are bound to different sessions, and
/// each is announced under its own id, provided the id minted for the second
/// is not on record.
pub proof fn lemma_two_registrations_announce_two_sessions(
    registry: RegistryView,
    first: RegisterPayload,
    first_outbox: Sender<ServiceToAppMessage>,
    first_now: Timestamp,
    first_id: String,
    second: RegisterPayload,
    second_outbox: Sender<ServiceToAppMessage>,
    second_now: Timestamp,
    second_id: String,
)
    requires
        registry.wf(),
        !register_transition(registry, first, first_outbox, first_now, first_id).registry.has_session(
            second_id@,
        ),
    ensures
        ({
            let one = register_transition(registry, first, first_outbox, first_now, first_id);
            let two = register_transition(one.registry, second, second_outbox, second_now, second_id);
            &&& one.next is Registered
            &&& two.next is Registered
            &&& one.next->session_id@ != two.next->session_id@
            &&& one.event matches Some(announced) && subject(announced) == Some(
                one.next->session_id,
            )
            &&& two.event matches Some(announced) && subject(announced) == Some(
                two.next->session_id,
            )
        }),
{
    let one = register_transition(registry, first, first_outbox, first_now, first_id);
    lemma_registrations_get_distinct_ids(
        registry,
        first,
        first_outbox,
        first_id,
        first_now,
        second,
        second_id,
    );
    lemma_registration_records_its_session(registry, first, first_outbox, first_id, first_now);
    lemma_registration_announces_its_session(registry, first, first_outbox, first_now, first_id);
    lemma_registration_records_its_session(
        one.registry,
        second,
        second_outbox,
        second_id,
        second_now,
    );
    lemma_registration_announces_its_session(
        one.registry,
        second,
        second_outbox,
        second_now,
        second_id,
    );
}

// === What is written to a consumer ===

/// How far the frames toward a consumer have come.
#[derive(Debug, Clone, Copy, PartialEq, Eq, Structural)]
pub enum FeedState {
    /// Nothing has been written; the SYNC is due.
    AwaitSync,
    /// The SYNC has been written; events follow.
    Flowing,
}

/// Whether `message` is written to a consumer whose feed is in `state`: the
/// SYNC while it is due and never again, anything else only after it.
pub open spec fn is_written(state: FeedState, message: DashboardMessageView) -> bool {
    match state {
        FeedState::AwaitSync => message is Sync,
        FeedState::Flowing => !(message is Sync),
    }
}

/// The state of a feed once `message` has been offered to it.
pub open spec fn feed_after(state: FeedState, message: DashboardMessageView) -> FeedState {
    if state == FeedState::AwaitSync && !(message is Sync) {
        FeedState::AwaitSync
    } else {
        FeedState::Flowing
    }
}

/// One message on its way to a consumer's connection: what the feed is in
/// afterwards, and the frame to write, if the message is to be written.
#[derive(Debug)]
pub struct FeedStep {
    pub next: FeedState,
    pub frame: Option<ServiceToDashboardMessage>,
}

/// Decides what is written to a consumer for `message`, which is the answer
/// to its attachment or was taken from its outbox: the SYNC goes out first
/// and once; what is offered before it, and a second SYNC, is not written.
pub fn feed(state: FeedState, message: ServiceToDashboardMessage) -> (step: FeedStep)
    ensures
        step.next == feed_after(state, message@),
        step.frame == if is_written(state, message@) {
            Some(message)
        } else {
            None
        },
{
    let is_sync = match &message {
        ServiceToDashboardMessage::Sync { .. } => true,
        _ => false,
    };
    match state {
        FeedState::AwaitSync => if is_sync {
            FeedStep { next: FeedState::Flowing, frame: Some(message) }
        } else {
            FeedStep { next: FeedState::AwaitSync, frame: None }
        },
        FeedState::Flowing => if is_sync {
            FeedStep { next: FeedState::Flowing, frame: None }
        } else {
            FeedStep { next: FeedState::Flowing, frame: Some(message) }
        },
    }
}

/// The state of a feed that starts in `state` once `offered` have been
/// offered to it, in order.
pub open spec fn feed_state_after(state: FeedState, offered: Seq<DashboardMessageView>) -> FeedState
    decreases offered.len(),
{
    if offered.len() == 0 {
        state
    } else {
        feed_after(feed_state_after(state, offered.drop_last()), offered.last())
    }
}

/// The frames written by a feed that starts in `state` when `offered` are
/// offered to it, in order.
pub open spec fn frames_written(state: FeedState, offered: Seq<DashboardMessageView>) -> Seq<
    DashboardMessageView,
>
    decreases offered.len(),
{
    if offered.len() == 0 {
        Seq::empty()
    } else {
        let earlier = frames_written(state, offered.drop_last());
        if is_written(feed_state_after(state, offered.drop_last()), offered.last()) {
            earlier.push(offered.last())
        } else {
            earlier
        }
    }
}

/// Whatever is offered to a consumer's feed, in whatever order: the first
/// frame written is a SYNC, no other frame is, and nothing is written before
/// it. The frames after it are the messages offered after it that are no
/// SYNC, in their order.
pub proof fn lemma_sync_is_written_first(offered: Seq<DashboardMessageView>)
    ensures
        ({
            let written = frames_written(FeedState::AwaitSync, offered);
            &&& written.len() > 0 ==> written[0] is Sync
            &&& forall|k: int| 0 < k < written.len() ==> !(#[trigger] written[k] is Sync)
            &&& written.len() == 0 <==> feed_state_after(FeedState::AwaitSync, offered)
                == FeedState::AwaitSync
        }),
    decreases offered.len(),
{
    if offered.len() > 0 {
        lemma_sync_is_written_first(offered.drop_last());
    }
}

/// Nothing that a step of a producer connection announces is a SYNC: a SYNC
/// reaches a consumer only as the answer to its own attachment.
pub proof fn lemma_no_step_announces_sync(
    registry: RegistryView,
    state: ProducerState,
    event: ProducerEvent,
    outbox: Sender<ServiceToAppMessage>,
    now: Timestamp,
    fresh_id: String,
)
    ensures
        producer_transition(registry, state, event, outbox, now, fresh_id).event matches Some(
            announced,
        ) ==> !(announced is Sync),
{
}

} // verus!
