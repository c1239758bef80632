//! The session driver: a state machine that takes one task session from
//! negotiation through launch and monitoring to destruction. The caller
//! performs each action it returns and hands back what came of it as the next
//! event. A created session is destroyed exactly once, whatever ends it.

use vstd::prelude::*;

verus! {

/// Where the session stands.
#[derive(PartialEq, Eq, Structural, Debug, Clone, Copy)]
pub enum Phase {
    Idle,
    Negotiating,
    Launching,
    Monitoring,
    Draining,
    Destroying,
    Done,
}

/// Why a session ended early.
#[derive(PartialEq, Eq, Structural, Debug, Clone, Copy)]
pub enum SessionError {
    PublishError,
    NegotiationTimeout,
    NegotiationError,
    ActivityCreationError,
    LaunchError,
    StreamError,
    /// The operator interrupted the session.
    Cancelled,
}

/// What came of the last action, or what happened meanwhile.
#[derive(PartialEq, Eq, Structural, Debug, Clone, Copy)]
pub enum DriverEvent {
    /// The session is to start.
    Begin,
    /// The demand could not be published.
    PublishFailed,
    /// Negotiation broke down.
    NegotiationFailed,
    /// Negotiation reached its deadline with this many agreements.
    Negotiated { agreements: u64 },
    /// The remote execution context exists.
    Created,
    /// The remote execution context could not be created.
    CreationFailed,
    /// Deploy and start both succeeded.
    Launched,
    /// Deploy or start failed.
    LaunchFailed,
    /// The event stream delivered `Finished`, or ran out, and its batch was joined.
    StreamEnded,
    /// The event stream broke.
    StreamFailed,
    /// The message channel closed.
    ChannelClosed,
    /// The operator interrupted the session.
    Cancelled,
    /// Destruction was attempted; `ok` tells whether it succeeded.
    Destroyed { ok: bool },
}

/// What the caller does next.
#[derive(PartialEq, Eq, Structural, Debug, Clone, Copy)]
pub enum DriverAction {
    /// Publish the demand and negotiate until the deadline.
    Negotiate,
    /// Create the execution context from the first agreement.
    CreateSession,
    /// Send the deploy-then-start batch.
    DeployAndStart,
    /// Start consuming the event stream and, if used, the message channel.
    SpawnConsumers,
    /// Destroy the execution context.
    Destroy,
    /// Report the outcome and exit.
    Finish,
    /// Nothing to do: wait for the next event.
    Wait,
}

/// The state of one session.
#[derive(PartialEq, Eq, Structural, Debug, Clone, Copy)]
pub struct Driver {
    pub phase: Phase,
    /// Whether the execution context was created.
    pub created: bool,
    /// Whether the message channel is still to be drained.
    pub channel_open: bool,
    /// The error that ended the session, if one did.
    pub error: Option<SessionError>,
    /// Whether destruction failed; this is logged, never reported as the outcome.
    pub destroy_failed: bool,
}

/// A session that has not started; `uses_channel` tells whether the task
/// kind has a message channel to drain besides the event stream.
pub open spec fn initial(uses_channel: bool) -> Driver {
    Driver {
        phase: Phase::Idle,
        created: false,
        channel_open: uses_channel,
        error: None,
        destroy_failed: false,
    }
}

/// The session ends before anything was created.
pub open spec fn give_up(d: Driver, e: SessionError) -> (Driver, DriverAction) {
    (Driver { phase: Phase::Done, error: Some(e), ..d }, DriverAction::Finish)
}

/// The created session is torn down.
pub open spec fn tear_down(d: Driver, e: Option<SessionError>) -> (Driver, DriverAction) {
    (Driver { phase: Phase::Destroying, error: e, ..d }, DriverAction::Destroy)
}

/// The state and action after event `e` in state `d`. Events that do not
/// belong to the phase change nothing.
pub open spec fn next(d: Driver, e: DriverEvent) -> (Driver, DriverAction) {
    let wait = (d, DriverAction::Wait);
    match d.phase {
        Phase::Idle => match e {
            DriverEvent::Begin => (Driver { phase: Phase::Negotiating, ..d }, DriverAction::Negotiate),
            DriverEvent::Cancelled => give_up(d, SessionError::Cancelled),
            _ => wait,
        },
        Phase::Negotiating => match e {
            DriverEvent::PublishFailed => give_up(d, SessionError::PublishError),
            DriverEvent::NegotiationFailed => give_up(d, SessionError::NegotiationError),
            DriverEvent::Negotiated { agreements } => if agreements == 0 {
                give_up(d, SessionError::NegotiationTimeout)
            } else {
                (Driver { phase: Phase::Launching, ..d }, DriverAction::CreateSession)
            },
            DriverEvent::Cancelled => give_up(d, SessionError::Cancelled),
            _ => wait,
        },
        Phase::Launching => if !d.created {
            match e {
                DriverEvent::Created => (Driver { created: true, ..d }, DriverAction::DeployAndStart),
                DriverEvent::CreationFailed => give_up(d, SessionError::ActivityCreationError),
                DriverEvent::Cancelled => give_up(d, SessionError::Cancelled),
                _ => wait,
            }
        } else {
            match e {
                DriverEvent::Launched => (
                    Driver { phase: Phase::Monitoring, ..d },
                    DriverAction::SpawnConsumers,
                ),
                DriverEvent::LaunchFailed => tear_down(d, Some(SessionError::LaunchError)),
                DriverEvent::Cancelled => tear_down(d, Some(SessionError::Cancelled)),
                _ => wait,
            }
        },
        Phase::Monitoring => match e {
            DriverEvent::StreamEnded => if d.channel_open {
                (Driver { phase: Phase::Draining, ..d }, DriverAction::Wait)
            } else {
                tear_down(d, d.error)
            },
            DriverEvent::StreamFailed => if d.channel_open {
                (
                    Driver { phase: Phase::Draining, error: Some(SessionError::StreamError), ..d },
                    DriverAction::Wait,
                )
            } else {
                tear_down(d, Some(SessionError::StreamError))
            },
            DriverEvent::ChannelClosed => (Driver { channel_open: false, ..d }, DriverAction::Wait),
            DriverEvent::Cancelled => tear_down(d, Some(SessionError::Cancelled)),
            _ => wait,
        },
        Phase::Draining => match e {
            DriverEvent::ChannelClosed => tear_down(Driver { channel_open: false, ..d }, d.error),
            DriverEvent::Cancelled => tear_down(d, Some(SessionError::Cancelled)),
            _ => wait,
        },
        Phase::Destroying => match e {
            DriverEvent::Destroyed { ok } => (
                Driver { phase: Phase::Done, destroy_failed: !ok, ..d },
                DriverAction::Finish,
            ),
            _ => wait,
        },
        Phase::Done => wait,
    }
}

/// The final state and the actions, in order, when `es` arrive in state `d`.
pub open spec fn run(d: Driver, es: Seq<DriverEvent>) -> (Driver, Seq<DriverAction>)
    decreases es.len(),
{
    if es.len() == 0 {
        (d, seq![])
    } else {
        let (d1, a) = next(d, es[0]);
        let (dn, acts) = run(d1, es.drop_first());
        (dn, seq![a] + acts)
    }
}

/// How many times `acts` asks for destruction.
pub open spec fn destroys(acts: Seq<DriverAction>) -> nat
    decreases acts.len(),
{
    if acts.len() == 0 {
        0
    } else {
        (if acts[0] == DriverAction::Destroy {
            1nat
        } else {
            0nat
        }) + destroys(acts.drop_first())
    }
}

/// Whether destruction of a created session was asked for on the way to `d`.
pub open spec fn destroy_issued(d: Driver) -> bool {
    d.created && (d.phase == Phase::Destroying || d.phase == Phase::Done)
}

/// The phases agree with whether the context exists.
pub open spec fn consistent(d: Driver) -> bool {
    &&& d.created ==> d.phase != Phase::Idle && d.phase != Phase::Negotiating
    &&& !d.created ==> d.phase != Phase::Monitoring && d.phase != Phase::Draining && d.phase
        != Phase::Destroying
}

proof fn lemma_step(d: Driver, e: DriverEvent)
    requires
        consistent(d),
    ensures
        consistent(next(d, e).0),
        destroy_issued(next(d, e).0) == (destroy_issued(d) || next(d, e).1 == DriverAction::Destroy),
        next(d, e).1 == DriverAction::Destroy ==> !destroy_issued(d),
{
}

proof fn lemma_run(d: Driver, es: Seq<DriverEvent>)
    requires
        consistent(d),
    ensures
        consistent(run(d, es).0),
        destroys(run(d, es).1) + (if destroy_issued(d) {
            1nat
        } else {
            0nat
        }) == (if destroy_issued(run(d, es).0) {
            1nat
        } else {
            0nat
        }),
    decreases es.len(),
{
    if es.len() > 0 {
        let (d1, a) = next(d, es[0]);
        lemma_step(d, es[0]);
        lemma_run(d1, es.drop_first());
        let acts = run(d1, es.drop_first()).1;
        assert((seq![a] + acts).drop_first() =~= acts);
    }
}

/// Whatever events arrive, in whatever order, a session asks for destruction
/// at most once; it has asked exactly once as soon as a created session has
/// left launch and monitoring, so in particular on reaching `Done`.
pub proof fn lemma_destroy_exactly_once(uses_channel: bool, es: Seq<DriverEvent>)
    ensures
        destroys(run(initial(uses_channel), es).1) <= 1,
        destroys(run(initial(uses_channel), es).1) == 1 <==> destroy_issued(
            run(initial(uses_channel), es).0,
        ),
        run(initial(uses_channel), es).0.created && run(initial(uses_channel), es).0.phase
            == Phase::Done ==> destroys(run(initial(uses_channel), es).1) == 1,
        !run(initial(uses_channel), es).0.created ==> destroys(run(initial(uses_channel), es).1)
            == 0,
{
    lemma_run(initial(uses_channel), es);
}

/// Once done, a session stays as it is and asks for nothing more.
pub proof fn lemma_done_is_final(d: Driver, es: Seq<DriverEvent>)
    requires
        d.phase == Phase::Done,
    ensures
        run(d, es).0 == d,
        forall|i: int| 0 <= i < es.len() ==> #[trigger] run(d, es).1[i] == DriverAction::Wait,
        run(d, es).1.len() == es.len(),
    decreases es.len(),
{
    if es.len() > 0 {
        lemma_done_is_final(d, es.drop_first());
        let acts = run(d, es.drop_first()).1;
        assert forall|i: int| 0 <= i < es.len() implies #[trigger] run(d, es).1[i]
            == DriverAction::Wait by {
            if i > 0 {
                assert(run(d, es).1[i] == acts[i - 1]);
            }
        }
    }
}

/// Negotiation that ends with no agreement ends the session with
/// `NegotiationTimeout`, and whatever arrives afterwards, no execution context
/// is created and nothing is deployed or started.
pub proof fn lemma_timeout_launches_nothing(d: Driver, es: Seq<DriverEvent>)
    requires
        d.phase == Phase::Negotiating,
    ensures
        next(d, DriverEvent::Negotiated { agreements: 0 }).0.phase == Phase::Done,
        next(d, DriverEvent::Negotiated { agreements: 0 }).0.error == Some(
            SessionError::NegotiationTimeout,
        ),
        next(d, DriverEvent::Negotiated { agreements: 0 }).1 == DriverAction::Finish,
        !run(next(d, DriverEvent::Negotiated { agreements: 0 }).0, es).1.contains(
            DriverAction::CreateSession,
        ),
        !run(next(d, DriverEvent::Negotiated { agreements: 0 }).0, es).1.contains(
            DriverAction::DeployAndStart,
        ),
{
    let d1 = next(d, DriverEvent::Negotiated { agreements: 0 }).0;
    lemma_done_is_final(d1, es);
}

impl Driver {
    /// A session that has not started; `uses_channel` tells whether there is
    /// a message channel to drain besides the event stream.
    pub fn new(uses_channel: bool) -> (r: Driver)
        ensures
            r == initial(uses_channel),
    {
        Driver {
            phase: Phase::Idle,
            created: false,
            channel_open: uses_channel,
            error: None,
            destroy_failed: false,
        }
    }

    /// Takes one event and returns what to do next.
    pub fn step(&mut self, e: DriverEvent) -> (r: DriverAction)
        ensures
            (*final(self), r) == next(*old(self), e),
    {
        let d = *self;
        let (nd, a) = match d.phase {
            Phase::Idle => match e {
                DriverEvent::Begin => (Driver { phase: Phase::Negotiating, ..d }, DriverAction::Negotiate),
                DriverEvent::Cancelled => Self::given_up(d, SessionError::Cancelled),
                _ => (d, DriverAction::Wait),
            },
            Phase::Negotiating => match e {
                DriverEvent::PublishFailed => Self::given_up(d, SessionError::PublishError),
                DriverEvent::NegotiationFailed => Self::given_up(d, SessionError::NegotiationError),
                DriverEvent::Negotiated { agreements } => if agreements == 0 {
                    Self::given_up(d, SessionError::NegotiationTimeout)
                } else {
                    (Driver { phase: Phase::Launching, ..d }, DriverAction::CreateSession)
                },
                DriverEvent::Cancelled => Self::given_up(d, SessionError::Cancelled),
                _ => (d, DriverAction::Wait),
            },
            Phase::Launching => if !d.created {
                match e {
                    DriverEvent::Created => (Driver { created: true, ..d }, DriverAction::DeployAndStart),
                    DriverEvent::CreationFailed => Self::given_up(d, SessionError::ActivityCreationError),
                    DriverEvent::Cancelled => Self::given_up(d, SessionError::Cancelled),
                    _ => (d, DriverAction::Wait),
                }
            } else {
                match e {
                    DriverEvent::Launched => (
                        Driver { phase: Phase::Monitoring, ..d },
                        DriverAction::SpawnConsumers,
                    ),
                    DriverEvent::LaunchFailed => Self::torn_down(d, Some(SessionError::LaunchError)),
                    DriverEvent::Cancelled => Self::torn_down(d, Some(SessionError::Cancelled)),
                    _ => (d, DriverAction::Wait),
                }
            },
            Phase::Monitoring => match e {
                DriverEvent::StreamEnded => if d.channel_open {
                    (Driver { phase: Phase::Draining, ..d }, DriverAction::Wait)
                } else {
                    Self::torn_down(d, d.error)
                },
                DriverEvent::StreamFailed => if d.channel_open {
                    (
                        Driver { phase: Phase::Draining, error: Some(SessionError::StreamError), ..d },
                        DriverAction::Wait,
                    )
                } else {
                    Self::torn_down(d, Some(SessionError::StreamError))
                },
                DriverEvent::ChannelClosed => (Driver { channel_open: false, ..d }, DriverAction::Wait),
                DriverEvent::Cancelled => Self::torn_down(d, Some(SessionError::Cancelled)),
                _ => (d, DriverAction::Wait),
            },
            Phase::Draining => match e {
                DriverEvent::ChannelClosed => Self::torn_down(Driver { channel_open: false, ..d }, d.error),
                DriverEvent::Cancelled => Self::torn_down(d, Some(SessionError::Cancelled)),
                _ => (d, DriverAction::Wait),
            },
            Phase::Destroying => match e {
                DriverEvent::Destroyed { ok } => (
                    Driver { phase: Phase::Done, destroy_failed: !ok, ..d },
                    DriverAction::Finish,
                ),
                _ => (d, DriverAction::Wait),
            },
            Phase::Done => (d, DriverAction::Wait),
        };
        *self = nd;
        a
    }

    fn given_up(d: Driver, e: SessionError) -> (r: (Driver, DriverAction))
        ensures
            r == give_up(d, e),
    {
        (Driver { phase: Phase::Done, error: Some(e), ..d }, DriverAction::Finish)
    }

    fn torn_down(d: Driver, e: Option<SessionError>) -> (r: (Driver, DriverAction))
        ensures
            r == tear_down(d, e),
    {
        (Driver { phase: Phase::Destroying, error: e, ..d }, DriverAction::Destroy)
    }

    /// Whether the session is over.
    pub fn is_done(&self) -> (r: bool)
        ensures
            r == (self.phase == Phase::Done),
    {
        self.phase == Phase::Done
    }
}

} // verus!
