//! The forwarding loop as a state machine.
//!
//! The machine owns no socket and no hardware handle. The surrounding
//! program performs each [`Action`] the machine emits — one concentrator or
//! socket call per action — and feeds the outcome back as the next
//! [`Event`]. Every decision of the loop (what to configure next, when to
//! start, how many datagrams a batch produces, what a timeout means) is
//! made here and verified; the caller only moves bytes.
//!
//! Startup walks the plan's configuration sequence one step at a time and
//! then starts the concentrator; any failure before the machine is running
//! is fatal and leaves it [`State::Stopped`]. Once running, each iteration
//! first drains the concentrator — every received packet becomes one
//! [`Action::Send`] — and only when a drain comes back empty does the
//! machine poll the listen endpoint, where a timeout is an ordinary event
//! and not an error.

use vstd::prelude::*;

use crate::cmdline::Args;
use crate::plan::ChannelPlan;
use crate::plan::ConfigStep;
use crate::plan::config_steps;
use crate::plan::plan_steps;

verus! {

/// Where the forwarding loop stands.
#[derive(Clone, Copy, Debug, PartialEq, Eq, Structural)]
pub enum State {
    /// `applied` configuration steps have succeeded; the next one has been
    /// handed out and its outcome is awaited.
    Configuring { applied: usize },
    /// All configuration steps succeeded; the start call is awaited.
    Starting,
    /// Running, draining the concentrator of received packets.
    Draining,
    /// Running, polling the listen endpoint for a transmit request.
    Polling,
    /// A fatal failure was reported; the machine gives no further work.
    Stopped,
}

/// The outcome of the one call the caller last performed.
#[derive(Debug)]
pub enum Event {
    /// Nothing was performed yet; asks the machine for its first action.
    Boot,
    /// The configuration step handed out last was applied.
    Applied,
    /// A configuration step failed: fatal, startup is aborted.
    ApplyFailed,
    /// The concentrator started.
    Started,
    /// The start call failed: fatal.
    StartFailed,
    /// A drain call yielded a batch of packets, each already serialized.
    Batch(Vec<Vec<u8>>),
    /// A drain call yielded nothing.
    Empty,
    /// A drain call failed: fatal.
    ReceiveFailed,
    /// Publishing a packet failed: fatal.
    SendFailed,
    /// The listen endpoint yielded a datagram: an inbound transmit request,
    /// carried through but not yet consumed by this gateway.
    Datagram(Vec<u8>),
    /// The listen endpoint yielded nothing within the polling interval.
    /// Not an error.
    Timeout,
    /// The listen endpoint failed. Not fatal: the loop goes on.
    ListenFailed,
}

/// One call for the caller to perform next, in the order given.
#[derive(Debug)]
pub enum Action {
    /// Stage one configuration unit on the concentrator.
    Apply(ConfigStep),
    /// Commit the staged configuration and begin reception.
    Start,
    /// Drain the concentrator once (non-blocking).
    Receive,
    /// Send one datagram, these bytes, to the publish endpoint.
    Send(Vec<u8>),
    /// Read the listen endpoint once, waiting at most the polling interval.
    Poll,
}

/// The forwarding loop: its endpoints, its configuration sequence, and
/// where it stands.
#[derive(Debug)]
pub struct Forwarder {
    /// UDP port polled for inbound transmit requests.
    pub listen_port: u16,
    /// UDP port that received packets are published to.
    pub publish_port: u16,
    /// How long one poll of the listen endpoint may block, in milliseconds.
    pub polling_interval_ms: u64,
    /// The configuration sequence, applied in index order during startup.
    pub steps: Vec<ConfigStep>,
    /// Where the loop stands.
    pub state: State,
}

/// Rejected configurations of the loop itself.
#[derive(Clone, Copy, Debug, PartialEq, Eq, Structural)]
pub enum SetupError {
    /// The listen and publish endpoints are the same address.
    IdenticalEndpoints,
}

impl Forwarder {
    /// The machine's own invariant: the configuration sequence is never
    /// empty, and while configuring, the count of applied steps stays
    /// within it.
    pub open spec fn wf(self) -> bool {
        &&& 1 <= self.steps@.len()
        &&& (self.state matches State::Configuring { applied } ==> applied < self.steps@.len())
    }

    /// Build the loop over `plan` with the endpoints and interval of
    /// `args`. Both endpoints live on the loopback interface, so they are
    /// the same address exactly when the two ports are equal; that
    /// configuration is rejected.
    pub fn new(plan: &ChannelPlan, args: &Args) -> (r: Result<Forwarder, SetupError>)
        ensures
            r is Ok <==> args.listen_port != args.publish_port,
            (r matches Ok(f) ==> f.listen_port == args.listen_port),
            (r matches Ok(f) ==> f.publish_port == args.publish_port),
            (r matches Ok(f) ==> f.polling_interval_ms == args.interval),
            (r matches Ok(f) ==> f.steps@ == plan_steps(*plan)),
            (r matches Ok(f) ==> f.state == (State::Configuring { applied: 0 })),
            (r matches Ok(f) ==> f.wf()),
            (r matches Err(e) ==> e == SetupError::IdenticalEndpoints),
    {
        if args.listen_port == args.publish_port {
            return Err(SetupError::IdenticalEndpoints);
        }
        let steps = config_steps(plan);
        Ok(
            Forwarder {
                listen_port: args.listen_port,
                publish_port: args.publish_port,
                polling_interval_ms: args.interval,
                steps,
                state: State::Configuring { applied: 0 },
            },
        )
    }
}

/// The transition relation of the loop, in full: given the state and the
/// configuration sequence before a step, and the event fed in, it fixes the
/// state after the step and the exact actions handed out.
pub open spec fn step_spec(
    pre: State,
    steps: Seq<ConfigStep>,
    event: Event,
    post: State,
    actions: Seq<Action>,
) -> bool {
    match (pre, event) {
        (State::Configuring { applied }, Event::Boot) => if applied == 0 {
            &&& post == pre
            &&& actions =~= seq![Action::Apply(steps[0])]
        } else {
            &&& post is Stopped
            &&& actions.len() == 0
        },
        (State::Configuring { applied }, Event::Applied) => if applied + 1 < steps.len() {
            &&& post == (State::Configuring { applied: (applied + 1) as usize })
            &&& actions =~= seq![Action::Apply(steps[applied + 1])]
        } else {
            &&& post is Starting
            &&& actions =~= seq![Action::Start]
        },
        (State::Configuring { .. }, Event::ApplyFailed) => post is Stopped && actions.len() == 0,
        (State::Starting, Event::Started) => post is Draining && actions =~= seq![Action::Receive],
        (State::Starting, Event::StartFailed) => post is Stopped && actions.len() == 0,
        (State::Draining, Event::Batch(pkts)) => {
            &&& post is Draining
            &&& actions.len() == pkts@.len() + 1
            &&& forall|i: int|
                0 <= i < pkts@.len() ==> ((#[trigger] actions[i]) matches Action::Send(p) && p@
                    == pkts@[i]@)
            &&& actions[pkts@.len() as int] is Receive
        },
        (State::Draining, Event::Empty) => post is Polling && actions =~= seq![Action::Poll],
        (State::Draining, Event::ReceiveFailed) => post is Stopped && actions.len() == 0,
        (State::Draining, Event::SendFailed) => post is Stopped && actions.len() == 0,
        (State::Polling, Event::Datagram(_)) => post is Draining && actions =~= seq![
            Action::Receive,
        ],
        (State::Polling, Event::Timeout) => post is Draining && actions =~= seq![Action::Receive],
        (State::Polling, Event::ListenFailed) => post is Draining && actions =~= seq![
            Action::Receive,
        ],
        _ => post is Stopped && actions.len() == 0,
    }
}

impl Forwarder {
    /// Take one step: consume the outcome of the last call and hand out the
    /// calls to perform next, exactly as [`step_spec`] fixes them. The
    /// configuration sequence and the endpoints never change.
    pub fn step(&mut self, event: Event) -> (actions: Vec<Action>)
        requires
            old(self).wf(),
        ensures
            final(self).wf(),
            final(self).steps@ == old(self).steps@,
            final(self).listen_port == old(self).listen_port,
            final(self).publish_port == old(self).publish_port,
            final(self).polling_interval_ms == old(self).polling_interval_ms,
            step_spec(old(self).state, old(self).steps@, event, final(self).state, actions@),
    {
        let mut actions: Vec<Action> = Vec::new();
        let pre = self.state;
        match (pre, event) {
            (State::Configuring { applied }, Event::Boot) => {
                if applied == 0 {
                    actions.push(Action::Apply(self.steps[0]));
                } else {
                    self.state = State::Stopped;
                }
            },
            (State::Configuring { applied }, Event::Applied) => {
                let n = self.steps.len();
                if applied + 1 < n {
                    self.state = State::Configuring { applied: applied + 1 };
                    actions.push(Action::Apply(self.steps[applied + 1]));
                } else {
                    self.state = State::Starting;
                    actions.push(Action::Start);
                }
            },
            (State::Configuring { .. }, Event::ApplyFailed) => {
                self.state = State::Stopped;
            },
            (State::Starting, Event::Started) => {
                self.state = State::Draining;
                actions.push(Action::Receive);
            },
            (State::Starting, Event::StartFailed) => {
                self.state = State::Stopped;
            },
            (State::Draining, Event::Batch(pkts)) => {
                let n = pkts.len();
                let mut i: usize = 0;
                while i < n
                    invariant
                        i <= n,
                        n == pkts@.len(),
                        actions@.len() == i,
                        forall|k: int|
                            0 <= k < i ==> ((#[trigger] actions@[k]) matches Action::Send(p) && p@
                                == pkts@[k]@),
                    decreases n - i,
                {
                    actions.push(Action::Send(pkts[i].clone()));
                    i = i + 1;
                }
                actions.push(Action::Receive);
            },
            (State::Draining, Event::Empty) => {
                self.state = State::Polling;
                actions.push(Action::Poll);
            },
            (State::Draining, Event::ReceiveFailed) => {
                self.state = State::Stopped;
            },
            (State::Draining, Event::SendFailed) => {
                self.state = State::Stopped;
            },
            (State::Polling, Event::Datagram(_)) => {
                self.state = State::Draining;
                actions.push(Action::Receive);
            },
            (State::Polling, Event::Timeout) => {
                self.state = State::Draining;
                actions.push(Action::Receive);
            },
            (State::Polling, Event::ListenFailed) => {
                self.state = State::Draining;
                actions.push(Action::Receive);
            },
            _ => {
                self.state = State::Stopped;
            },
        }
        actions
    }
}

/// How many of these actions send a datagram to the publish endpoint.
pub open spec fn send_count(actions: Seq<Action>) -> nat
    decreases actions.len(),
{
    if actions.len() == 0 {
        0
    } else {
        send_count(actions.drop_last()) + if actions.last() is Send {
            1nat
        } else {
            0nat
        }
    }
}

/// A sequence of actions that are all sends counts its own length.
proof fn lemma_send_count_all_sends(actions: Seq<Action>)
    requires
        forall|i: int| 0 <= i < actions.len() ==> (#[trigger] actions[i]) is Send,
    ensures
        send_count(actions) == actions.len(),
    decreases actions.len(),
{
    if actions.len() > 0 {
        lemma_send_count_all_sends(actions.drop_last());
    }
}

/// Appending an action that is not a send leaves the count unchanged.
proof fn lemma_send_count_non_send_last(actions: Seq<Action>)
    requires
        actions.len() > 0,
        !(actions.last() is Send),
    ensures
        send_count(actions) == send_count(actions.drop_last()),
{
}

/// Sends are counted piecewise across concatenation.
proof fn lemma_send_count_add(a: Seq<Action>, b: Seq<Action>)
    ensures
        send_count(a + b) == send_count(a) + send_count(b),
    decreases b.len(),
{
    if b.len() == 0 {
        assert(a + b =~= a);
    } else {
        lemma_send_count_add(a, b.drop_last());
        assert((a + b).drop_last() =~= a + b.drop_last());
        assert((a + b).last() == b.last());
    }
}

/// Law: when a drain call yields a batch of `n` packets, the machine hands
/// out exactly `n` sends — one per packet, carrying that packet's bytes, in
/// batch order — followed by another drain, and never a poll; the loop
/// stays in its drain phase.
pub proof fn lemma_batch_publishes_each_packet(
    pre: State,
    steps: Seq<ConfigStep>,
    pkts: Vec<Vec<u8>>,
    post: State,
    actions: Seq<Action>,
)
    requires
        pre is Draining,
        step_spec(pre, steps, Event::Batch(pkts), post, actions),
    ensures
        post is Draining,
        send_count(actions) == pkts@.len(),
        actions.len() == pkts@.len() + 1,
        forall|i: int|
            0 <= i < pkts@.len() ==> ((#[trigger] actions[i]) matches Action::Send(p) && p@
                == pkts@[i]@),
        actions.last() is Receive,
        forall|i: int| 0 <= i < actions.len() ==> !((#[trigger] actions[i]) is Poll),
{
    let n = pkts@.len() as int;
    assert(actions.last() is Receive);
    lemma_send_count_non_send_last(actions);
    assert forall|i: int|
        0 <= i < actions.drop_last().len() implies (#[trigger] actions.drop_last()[i]) is Send by {
        assert(actions.drop_last()[i] == actions[i]);
        assert(actions[i] matches Action::Send(p) && p@ == pkts@[i]@);
    }
    lemma_send_count_all_sends(actions.drop_last());
    assert forall|i: int| 0 <= i < actions.len() implies !((#[trigger] actions[i]) is Poll) by {
        if i < n {
            assert(actions[i] matches Action::Send(p) && p@ == pkts@[i]@);
        } else {
            assert(actions[i] is Receive);
        }
    }
}

/// Law: when a drain call yields nothing, the machine sends no datagram and
/// moves directly to its poll phase, handing out exactly one poll.
pub proof fn lemma_empty_drain_publishes_nothing(
    pre: State,
    steps: Seq<ConfigStep>,
    post: State,
    actions: Seq<Action>,
)
    requires
        pre is Draining,
        step_spec(pre, steps, Event::Empty, post, actions),
    ensures
        post is Polling,
        send_count(actions) == 0,
        actions =~= seq![Action::Poll],
{
    lemma_send_count_non_send_last(actions);
}

/// Law: a poll that times out is no error. The machine stays running,
/// returns to its drain phase, and hands out exactly one drain call.
pub proof fn lemma_timeout_keeps_running(
    pre: State,
    steps: Seq<ConfigStep>,
    post: State,
    actions: Seq<Action>,
)
    requires
        pre is Polling,
        step_spec(pre, steps, Event::Timeout, post, actions),
    ensures
        post is Draining,
        !(post is Stopped),
        send_count(actions) == 0,
        actions =~= seq![Action::Receive],
{
    lemma_send_count_non_send_last(actions);
}

/// Law: one idle iteration — a drain that comes back empty, then a poll
/// that times out — publishes nothing, and the loop is still running,
/// back in its drain phase.
pub proof fn lemma_idle_iteration(
    pre: State,
    steps: Seq<ConfigStep>,
    mid: State,
    post: State,
    first: Seq<Action>,
    second: Seq<Action>,
)
    requires
        pre is Draining,
        step_spec(pre, steps, Event::Empty, mid, first),
        step_spec(mid, steps, Event::Timeout, post, second),
    ensures
        post is Draining,
        send_count(first + second) == 0,
{
    lemma_empty_drain_publishes_nothing(pre, steps, mid, first);
    lemma_timeout_keeps_running(mid, steps, post, second);
    lemma_send_count_add(first, second);
}

/// Law: while configuring, the machine hands out the plan's steps one at a
/// time in index order: after `applied` successes the next call applies the
/// step with index `applied + 1`, and the start call is handed out only
/// once every step of the sequence has succeeded.
pub proof fn lemma_startup_applies_in_index_order(
    applied: usize,
    steps: Seq<ConfigStep>,
    post: State,
    actions: Seq<Action>,
)
    requires
        applied < steps.len(),
        step_spec(State::Configuring { applied }, steps, Event::Applied, post, actions),
    ensures
        applied + 1 < steps.len() ==> actions =~= seq![Action::Apply(steps[applied + 1])],
        applied + 1 < steps.len() ==> post == (State::Configuring { applied: (applied + 1) as usize }),
        applied + 1 == steps.len() ==> actions =~= seq![Action::Start],
        applied + 1 == steps.len() ==> post is Starting,
{
}

/// Law: once the loop is running, no step ever hands out another
/// configuration or start call, and the machine never returns to a
/// configuring state: configuration is immutable after start.
pub proof fn lemma_running_never_reconfigures(
    pre: State,
    steps: Seq<ConfigStep>,
    event: Event,
    post: State,
    actions: Seq<Action>,
)
    requires
        pre is Draining || pre is Polling,
        step_spec(pre, steps, event, post, actions),
    ensures
        !(post is Configuring),
        !(post is Starting),
        forall|i: int|
            0 <= i < actions.len() ==> !((#[trigger] actions[i]) is Apply) && !(actions[i] is Start),
{
    match (pre, event) {
        (State::Draining, Event::Batch(pkts)) => {
            assert forall|i: int|
                0 <= i < actions.len() implies !((#[trigger] actions[i]) is Apply) && !(
            actions[i] is Start) by {
                if i < pkts@.len() {
                    assert(actions[i] matches Action::Send(p) && p@ == pkts@[i]@);
                } else {
                    assert(actions[i] is Receive);
                }
            }
        },
        _ => {},
    }
}

} // verus!
