//! The bridge: the life of one upgraded connection.
//!
//! A WebSocket upgrade and a `CONNECT` tunnel go the same way. The upstream
//! is dialed first. Only when it stands is the client answered with success
//! and its connection taken over; when the dial fails the client gets a 502
//! and is never upgraded. Then both directions are spliced until one ends.
//!
//! The bridge itself does no I/O. It is a state machine: the caller reports
//! what happened, and the bridge says what to do next.

use crate::reply::{Failure, CONNECT_TIMEOUT_MS};
use crate::splice::{
    client_events, delivered_to_client, delivered_upstream, forward, lemma_client_events,
    lemma_upstream_events, live, sent_by_client, sent_by_upstream, upstream_events, SpliceAction,
    SpliceEvent,
};
use vstd::prelude::*;

verus! {

/// What is carried over the bridged connection.
#[derive(Debug, Clone, Copy, PartialEq, Eq, Structural)]
pub enum Protocol {
    /// WebSocket frames, after an upgrade answered with 101.
    WebSocket,
    /// Raw bytes, after a `CONNECT` answered with 200.
    Tunnel,
}

/// The states of a bridge.
#[derive(Debug, Clone, Copy, PartialEq, Eq, Structural)]
pub enum BridgeState {
    /// Nothing has happened yet.
    Idle,
    /// The upstream is being dialed.
    DialingUpstream,
    /// The upstream stands; the client is being answered.
    UpstreamConnected,
    /// The client's connection has been taken over.
    ClientUpgraded,
    /// Both directions are being forwarded.
    Bridging,
    /// The session is over.
    Closed,
}

/// What the caller reports to the bridge.
#[derive(Debug, PartialEq, Eq)]
pub enum BridgeEvent<F> {
    /// A client asked for the bridge.
    Requested,
    /// The dial to the upstream succeeded.
    DialSucceeded,
    /// The dial to the upstream failed.
    DialFailed,
    /// The dial to the upstream took longer than the bound.
    DialTimedOut,
    /// The client's connection was taken over.
    ClientUpgraded,
    /// The client's connection could not be taken over.
    ClientFailed,
    /// Forwarding has started in both directions.
    Started,
    /// Something happened on the spliced pair.
    Splice(SpliceEvent<F>),
}

/// What the bridge tells the caller to do.
#[derive(Debug, PartialEq, Eq)]
pub enum BridgeAction<F> {
    /// Dial the upstream, and give up after `timeout_ms` milliseconds.
    DialUpstream { timeout_ms: u64 },
    /// Answer the client with success, status `status`, and take its
    /// connection over.
    Accept { status: u16 },
    /// Answer the client with the response to `failure`. The client is not
    /// upgraded.
    Refuse { failure: Failure },
    /// Start forwarding in both directions.
    StartForwarding,
    /// Do what the splice says.
    Splice(SpliceAction<F>),
    /// Drop the upstream connection: there is no client to bridge it to.
    Abandon,
    /// Nothing: the event has no meaning in this state.
    Ignore,
}

/// The status `101 Switching Protocols`.
pub const STATUS_SWITCHING_PROTOCOLS: u16 = 101;

/// The status `200 OK`, which tells that a tunnel stands.
pub const STATUS_TUNNEL_ESTABLISHED: u16 = 200;

impl Protocol {
    /// The status that tells the client that the bridge stands.
    pub open spec fn accept_status(self) -> u16 {
        match self {
            Protocol::WebSocket => 101,
            Protocol::Tunnel => 200,
        }
    }

    /// The failure that a failed dial is answered with. A WebSocket dial
    /// has one answer however it failed.
    pub open spec fn dial_failure(self, timed_out: bool) -> Failure {
        match self {
            Protocol::WebSocket => Failure::WebSocketDialFailure,
            Protocol::Tunnel => if timed_out {
                Failure::UpstreamTimeout
            } else {
                Failure::UpstreamUnreachable
            },
        }
    }
}

/// The state after `event` in `state`, and the action that answers it.
pub open spec fn next<F>(protocol: Protocol, state: BridgeState, event: BridgeEvent<F>) -> (
    BridgeState,
    BridgeAction<F>,
) {
    match (state, event) {
        (BridgeState::Idle, BridgeEvent::Requested) => (
            BridgeState::DialingUpstream,
            BridgeAction::DialUpstream { timeout_ms: CONNECT_TIMEOUT_MS },
        ),
        (BridgeState::DialingUpstream, BridgeEvent::DialSucceeded) => (
            BridgeState::UpstreamConnected,
            BridgeAction::Accept { status: protocol.accept_status() },
        ),
        (BridgeState::DialingUpstream, BridgeEvent::DialFailed) => (
            BridgeState::Closed,
            BridgeAction::Refuse { failure: protocol.dial_failure(false) },
        ),
        (BridgeState::DialingUpstream, BridgeEvent::DialTimedOut) => (
            BridgeState::Closed,
            BridgeAction::Refuse { failure: protocol.dial_failure(true) },
        ),
        (BridgeState::UpstreamConnected, BridgeEvent::ClientUpgraded) => (
            BridgeState::ClientUpgraded,
            BridgeAction::StartForwarding,
        ),
        (BridgeState::UpstreamConnected, BridgeEvent::ClientFailed) => (
            BridgeState::Closed,
            BridgeAction::Abandon,
        ),
        (BridgeState::ClientUpgraded, BridgeEvent::Started) => (
            BridgeState::Bridging,
            BridgeAction::Ignore,
        ),
        (BridgeState::Bridging, BridgeEvent::Splice(e)) => (
            if e.is_item() {
                BridgeState::Bridging
            } else {
                BridgeState::Closed
            },
            BridgeAction::Splice(e.action()),
        ),
        _ => (state, BridgeAction::Ignore),
    }
}

/// Takes one step of the bridge: the state after `event`, and what to do.
pub fn step<F>(protocol: Protocol, state: BridgeState, event: BridgeEvent<F>) -> (out: (
    BridgeState,
    BridgeAction<F>,
))
    ensures
        out == next(protocol, state, event),
{
    match (state, event) {
        (BridgeState::Idle, BridgeEvent::Requested) => (
            BridgeState::DialingUpstream,
            BridgeAction::DialUpstream { timeout_ms: CONNECT_TIMEOUT_MS },
        ),
        (BridgeState::DialingUpstream, BridgeEvent::DialSucceeded) => {
            let status = match protocol {
                Protocol::WebSocket => STATUS_SWITCHING_PROTOCOLS,
                Protocol::Tunnel => STATUS_TUNNEL_ESTABLISHED,
            };
            (BridgeState::UpstreamConnected, BridgeAction::Accept { status })
        },
        (BridgeState::DialingUpstream, BridgeEvent::DialFailed) => {
            let failure = match protocol {
                Protocol::WebSocket => Failure::WebSocketDialFailure,
                Protocol::Tunnel => Failure::UpstreamUnreachable,
            };
            (BridgeState::Closed, BridgeAction::Refuse { failure })
        },
        (BridgeState::DialingUpstream, BridgeEvent::DialTimedOut) => {
            let failure = match protocol {
                Protocol::WebSocket => Failure::WebSocketDialFailure,
                Protocol::Tunnel => Failure::UpstreamTimeout,
            };
            (BridgeState::Closed, BridgeAction::Refuse { failure })
        },
        (BridgeState::UpstreamConnected, BridgeEvent::ClientUpgraded) => (
            BridgeState::ClientUpgraded,
            BridgeAction::StartForwarding,
        ),
        (BridgeState::UpstreamConnected, BridgeEvent::ClientFailed) => (
            BridgeState::Closed,
            BridgeAction::Abandon,
        ),
        (BridgeState::ClientUpgraded, BridgeEvent::Started) => (
            BridgeState::Bridging,
            BridgeAction::Ignore,
        ),
        (BridgeState::Bridging, BridgeEvent::Splice(e)) => {
            let action = forward(e);
            let after = match action {
                SpliceAction::Finish => BridgeState::Closed,
                _ => BridgeState::Bridging,
            };
            (after, BridgeAction::Splice(action))
        },
        (state, _) => (state, BridgeAction::Ignore),
    }
}

/// The state that a bridge is in after `events`, started in `state`.
pub open spec fn state_after<F>(
    protocol: Protocol,
    state: BridgeState,
    events: Seq<BridgeEvent<F>>,
) -> BridgeState
    decreases events.len(),
{
    if events.len() == 0 {
        state
    } else {
        next(protocol, state_after(protocol, state, events.drop_last()), events.last()).0
    }
}

/// The actions that a bridge answers `events` with, one for each, started
/// in `state`.
pub open spec fn actions_of<F>(
    protocol: Protocol,
    state: BridgeState,
    events: Seq<BridgeEvent<F>>,
) -> Seq<BridgeAction<F>>
    decreases events.len(),
{
    if events.len() == 0 {
        Seq::empty()
    } else {
        actions_of(protocol, state, events.drop_last()).push(
            next(protocol, state_after(protocol, state, events.drop_last()), events.last()).1,
        )
    }
}

/// Some action in `actions` accepts the client.
pub open spec fn accepts<F>(actions: Seq<BridgeAction<F>>) -> bool {
    exists|i: int| 0 <= i < actions.len() && #[trigger] actions[i] is Accept
}

/// Some action in `actions` refuses the client.
pub open spec fn refuses<F>(actions: Seq<BridgeAction<F>>) -> bool {
    exists|i: int| 0 <= i < actions.len() && #[trigger] actions[i] is Refuse
}

/// Some action in `actions` forwards an item or ends a splice.
pub open spec fn splices<F>(actions: Seq<BridgeAction<F>>) -> bool {
    exists|i: int| 0 <= i < actions.len() && #[trigger] actions[i] is Splice
}

/// What holds of the state and the actions of a bridge at every moment of
/// a session that started idle.
pub open spec fn consistent<F>(state: BridgeState, actions: Seq<BridgeAction<F>>) -> bool {
    match state {
        BridgeState::Idle => !accepts(actions) && !refuses(actions) && !splices(actions),
        BridgeState::DialingUpstream => !accepts(actions) && !refuses(actions) && !splices(
            actions,
        ),
        BridgeState::UpstreamConnected => accepts(actions) && !refuses(actions) && !splices(
            actions,
        ),
        BridgeState::ClientUpgraded => accepts(actions) && !refuses(actions) && !splices(actions),
        BridgeState::Bridging => accepts(actions) && !refuses(actions),
        BridgeState::Closed => !(accepts(actions) && refuses(actions)) && (splices(actions)
            ==> accepts(actions)),
    }
}

/// One more action changes what a sequence of actions holds in the obvious
/// way.
proof fn lemma_push_action<F>(actions: Seq<BridgeAction<F>>, action: BridgeAction<F>)
    ensures
        accepts(actions.push(action)) <==> accepts(actions) || action is Accept,
        refuses(actions.push(action)) <==> refuses(actions) || action is Refuse,
        splices(actions.push(action)) <==> splices(actions) || action is Splice,
{
    let more = actions.push(action);
    assert(more.last() == action);
    assert forall|i: int|
        #![trigger more[i]]
        #![trigger actions[i]]
        0 <= i < actions.len() implies more[i] == actions[i] by {}
}

/// A session that started idle is consistent after any events whatever.
pub proof fn lemma_session_is_consistent<F>(protocol: Protocol, events: Seq<BridgeEvent<F>>)
    ensures
        consistent(
            state_after(protocol, BridgeState::Idle, events),
            actions_of(protocol, BridgeState::Idle, events),
        ),
    decreases events.len(),
{
    if events.len() > 0 {
        let before = events.drop_last();
        lemma_session_is_consistent(protocol, before);
        let state = state_after(protocol, BridgeState::Idle, before);
        let actions = actions_of(protocol, BridgeState::Idle, before);
        lemma_push_action(actions, next(protocol, state, events.last()).1);
    }
}

/// A client is never both accepted and refused. So a client whose upstream
/// could not be dialed sees the 502 and nothing else: it is not first
/// upgraded and then dropped.
pub proof fn lemma_refused_is_never_accepted<F>(protocol: Protocol, events: Seq<BridgeEvent<F>>)
    ensures
        !(accepts(actions_of(protocol, BridgeState::Idle, events)) && refuses(
            actions_of(protocol, BridgeState::Idle, events),
        )),
        splices(actions_of(protocol, BridgeState::Idle, events)) ==> accepts(
            actions_of(protocol, BridgeState::Idle, events),
        ),
{
    lemma_session_is_consistent(protocol, events);
}

/// A closed bridge stays closed and answers every event with nothing.
pub proof fn lemma_closed_is_final<F>(protocol: Protocol, events: Seq<BridgeEvent<F>>)
    ensures
        state_after(protocol, BridgeState::Closed, events) == BridgeState::Closed,
        forall|i: int|
            0 <= i < events.len() ==> #[trigger] actions_of(
                protocol,
                BridgeState::Closed,
                events,
            )[i] is Ignore,
        actions_of(protocol, BridgeState::Closed, events).len() == events.len(),
    decreases events.len(),
{
    if events.len() > 0 {
        lemma_closed_is_final(protocol, events.drop_last());
    }
}

/// The bridge events that report `events` of the spliced pair.
pub open spec fn spliced<F>(events: Seq<SpliceEvent<F>>) -> Seq<BridgeEvent<F>> {
    events.map_values(|event: SpliceEvent<F>| BridgeEvent::Splice(event))
}

/// What the bridge's actions tell the splice to do, in order.
pub open spec fn splice_actions<F>(actions: Seq<BridgeAction<F>>) -> Seq<SpliceAction<F>>
    decreases actions.len(),
{
    if actions.len() == 0 {
        Seq::empty()
    } else {
        let before = splice_actions(actions.drop_last());
        match actions.last() {
            BridgeAction::Splice(action) => before.push(action),
            _ => before,
        }
    }
}

/// In each direction a bridging session delivers exactly what was sent while
/// it lasted: every item, unchanged, in the order in which it came, and
/// nothing else. It lasts until the first event that carries no item; what
/// is reported after that is delivered nowhere.
pub proof fn lemma_bridging_delivers_live_items<F>(
    protocol: Protocol,
    events: Seq<SpliceEvent<F>>,
)
    ensures
        delivered_upstream(
            splice_actions(actions_of(protocol, BridgeState::Bridging, spliced(events))),
        ) == sent_by_client(live(events)),
        delivered_to_client(
            splice_actions(actions_of(protocol, BridgeState::Bridging, spliced(events))),
        ) == sent_by_upstream(live(events)),
        live(events).len() <= events.len(),
        live(events).len() == events.len() ==> state_after(
            protocol,
            BridgeState::Bridging,
            spliced(events),
        ) == BridgeState::Bridging,
        live(events).len() < events.len() ==> state_after(
            protocol,
            BridgeState::Bridging,
            spliced(events),
        ) == BridgeState::Closed,
    decreases events.len(),
{
    if events.len() > 0 {
        let before = events.drop_last();
        lemma_bridging_delivers_live_items(protocol, before);
        assert(spliced(events).drop_last() =~= spliced(before));
        let acts = actions_of(protocol, BridgeState::Bridging, spliced(events));
        let acts_before = actions_of(protocol, BridgeState::Bridging, spliced(before));
        assert(acts.drop_last() =~= acts_before);
        if live(before).len() == before.len() {
            let told = splice_actions(acts);
            assert(told.drop_last() =~= splice_actions(acts_before));
            if events.last().is_item() {
                assert(live(events).drop_last() =~= live(before));
            }
        }
    }
}

/// The action that answers an event is decided by the state that the events
/// before it led to.
pub proof fn lemma_action_at<F>(
    protocol: Protocol,
    state: BridgeState,
    events: Seq<BridgeEvent<F>>,
    i: int,
)
    requires
        0 <= i < events.len(),
    ensures
        actions_of(protocol, state, events).len() == events.len(),
        actions_of(protocol, state, events)[i] == next(
            protocol,
            state_after(protocol, state, events.take(i)),
            events[i],
        ).1,
        state_after(protocol, state, events.take(i + 1)) == next(
            protocol,
            state_after(protocol, state, events.take(i)),
            events[i],
        ).0,
    decreases events.len(),
{
    let before = events.drop_last();
    lemma_actions_len(protocol, state, events);
    lemma_actions_len(protocol, state, before);
    if i == events.len() - 1 {
        assert(events.take(i + 1) =~= events);
    } else {
        lemma_action_at(protocol, state, before, i);
        assert(before.take(i) =~= events.take(i));
        assert(before.take(i + 1) =~= events.take(i + 1));
    }
}

/// Every event is answered by one action.
pub proof fn lemma_actions_len<F>(
    protocol: Protocol,
    state: BridgeState,
    events: Seq<BridgeEvent<F>>,
)
    ensures
        actions_of(protocol, state, events).len() == events.len(),
    decreases events.len(),
{
    if events.len() > 0 {
        lemma_actions_len(protocol, state, events.drop_last());
    }
}

/// Once a bridge is closed, no further event opens it again.
pub proof fn lemma_closed_stays_closed<F>(
    protocol: Protocol,
    state: BridgeState,
    events: Seq<BridgeEvent<F>>,
    i: int,
    k: int,
)
    requires
        0 <= i <= k <= events.len(),
        state_after(protocol, state, events.take(i)) == BridgeState::Closed,
    ensures
        state_after(protocol, state, events.take(k)) == BridgeState::Closed,
    decreases k - i,
{
    if k > i {
        lemma_closed_stays_closed(protocol, state, events, i, k - 1);
        lemma_action_at(protocol, state, events, k - 1);
    }
}

/// A dial that fails or times out is answered by a refusal with status 502,
/// there and then, and that is all the client ever sees: it is not accepted
/// before or afterwards, nothing is forwarded, and every later event is
/// ignored by the bridge, which is closed.
pub proof fn lemma_failed_dial_is_refused<F>(
    protocol: Protocol,
    events: Seq<BridgeEvent<F>>,
    i: int,
)
    requires
        0 <= i < events.len(),
        state_after(protocol, BridgeState::Idle, events.take(i)) == BridgeState::DialingUpstream,
        events[i] is DialFailed || events[i] is DialTimedOut,
    ensures
        actions_of(protocol, BridgeState::Idle, events)[i] == (BridgeAction::<F>::Refuse {
            failure: protocol.dial_failure(events[i] is DialTimedOut),
        }),
        protocol.dial_failure(events[i] is DialTimedOut).status() == 502,
        !accepts(actions_of(protocol, BridgeState::Idle, events)),
        !splices(actions_of(protocol, BridgeState::Idle, events)),
        forall|k: int|
            i < k < events.len() ==> #[trigger] actions_of(
                protocol,
                BridgeState::Idle,
                events,
            )[k] is Ignore,
        state_after(protocol, BridgeState::Idle, events) == BridgeState::Closed,
{
    lemma_action_at(protocol, BridgeState::Idle, events, i);
    lemma_refused_is_never_accepted(protocol, events);
    let actions = actions_of(protocol, BridgeState::Idle, events);
    assert forall|k: int| i < k < events.len() implies #[trigger] actions[k] is Ignore by {
        lemma_closed_stays_closed(protocol, BridgeState::Idle, events, i + 1, k);
        lemma_action_at(protocol, BridgeState::Idle, events, k);
    }
    lemma_closed_stays_closed(protocol, BridgeState::Idle, events, i + 1, events.len() as int);
    assert(events.take(events.len() as int) =~= events);
}

/// Whatever a client sends while the bridge is bridging arrives at the
/// upstream: every item, unchanged, in the order in which it was sent, and
/// nothing goes back to the client on that account.
pub proof fn lemma_client_items_arrive<F>(protocol: Protocol, items: Seq<F>)
    ensures
        delivered_upstream(
            splice_actions(
                actions_of(protocol, BridgeState::Bridging, spliced(client_events(items))),
            ),
        ) == items,
        delivered_to_client(
            splice_actions(
                actions_of(protocol, BridgeState::Bridging, spliced(client_events(items))),
            ),
        ) == Seq::<F>::empty(),
{
    lemma_client_events(items);
    lemma_bridging_delivers_live_items(protocol, client_events(items));
}

/// Whatever the upstream sends while the bridge is bridging arrives at the
/// client: every item, unchanged, in the order in which it was sent, and
/// nothing goes to the upstream on that account.
pub proof fn lemma_upstream_items_arrive<F>(protocol: Protocol, items: Seq<F>)
    ensures
        delivered_to_client(
            splice_actions(
                actions_of(protocol, BridgeState::Bridging, spliced(upstream_events(items))),
            ),
        ) == items,
        delivered_upstream(
            splice_actions(
                actions_of(protocol, BridgeState::Bridging, spliced(upstream_events(items))),
            ),
        ) == Seq::<F>::empty(),
{
    lemma_upstream_events(items);
    lemma_bridging_delivers_live_items(protocol, upstream_events(items));
}

} // verus!
