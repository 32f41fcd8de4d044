//! The splice: forwarding between two established connections.
//!
//! Once a client and an upstream are connected, whatever one side sends is
//! handed to the other, unread and unchanged, in the order of arrival. The
//! session is over as soon as either side ends or a send fails. What is
//! forwarded is a type parameter: a WebSocket frame for the bridge, a chunk
//! of bytes for the tunnel. Nothing here can look into it.

use vstd::prelude::*;

verus! {

/// What happens on a spliced pair of connections.
#[derive(Debug, PartialEq, Eq)]
pub enum SpliceEvent<F> {
    /// The client sent `F`.
    FromClient(F),
    /// The upstream sent `F`.
    FromUpstream(F),
    /// The client closed, or reading from it failed.
    ClientEnded,
    /// The upstream closed, or reading from it failed.
    UpstreamEnded,
    /// A send to either side failed.
    SendFailed,
}

/// What to do about an event on a spliced pair.
#[derive(Debug, PartialEq, Eq)]
pub enum SpliceAction<F> {
    /// Send `F` to the upstream.
    SendUpstream(F),
    /// Send `F` to the client.
    SendClient(F),
    /// The session is over.
    Finish,
}

impl<F> SpliceEvent<F> {
    /// Whether the event carries something to forward.
    pub open spec fn is_item(self) -> bool {
        self is FromClient || self is FromUpstream
    }

    /// The action that answers the event.
    pub open spec fn action(self) -> SpliceAction<F> {
        match self {
            SpliceEvent::FromClient(item) => SpliceAction::SendUpstream(item),
            SpliceEvent::FromUpstream(item) => SpliceAction::SendClient(item),
            SpliceEvent::ClientEnded => SpliceAction::Finish,
            SpliceEvent::UpstreamEnded => SpliceAction::Finish,
            SpliceEvent::SendFailed => SpliceAction::Finish,
        }
    }
}

/// Decides what to do about one event on a spliced pair: an item goes to the
/// other side as it came, anything else ends the session.
pub fn forward<F>(event: SpliceEvent<F>) -> (action: SpliceAction<F>)
    ensures
        action == event.action(),
        action is Finish <==> !event.is_item(),
{
    match event {
        SpliceEvent::FromClient(item) => SpliceAction::SendUpstream(item),
        SpliceEvent::FromUpstream(item) => SpliceAction::SendClient(item),
        SpliceEvent::ClientEnded => SpliceAction::Finish,
        SpliceEvent::UpstreamEnded => SpliceAction::Finish,
        SpliceEvent::SendFailed => SpliceAction::Finish,
    }
}

/// What the client sent, in order.
pub open spec fn sent_by_client<F>(events: Seq<SpliceEvent<F>>) -> Seq<F>
    decreases events.len(),
{
    if events.len() == 0 {
        Seq::empty()
    } else {
        let before = sent_by_client(events.drop_last());
        match events.last() {
            SpliceEvent::FromClient(item) => before.push(item),
            _ => before,
        }
    }
}

/// What the upstream sent, in order.
pub open spec fn sent_by_upstream<F>(events: Seq<SpliceEvent<F>>) -> Seq<F>
    decreases events.len(),
{
    if events.len() == 0 {
        Seq::empty()
    } else {
        let before = sent_by_upstream(events.drop_last());
        match events.last() {
            SpliceEvent::FromUpstream(item) => before.push(item),
            _ => before,
        }
    }
}

/// What the actions hand to the upstream, in order.
pub open spec fn delivered_upstream<F>(actions: Seq<SpliceAction<F>>) -> Seq<F>
    decreases actions.len(),
{
    if actions.len() == 0 {
        Seq::empty()
    } else {
        let before = delivered_upstream(actions.drop_last());
        match actions.last() {
            SpliceAction::SendUpstream(item) => before.push(item),
            _ => before,
        }
    }
}

/// What the actions hand to the client, in order.
pub open spec fn delivered_to_client<F>(actions: Seq<SpliceAction<F>>) -> Seq<F>
    decreases actions.len(),
{
    if actions.len() == 0 {
        Seq::empty()
    } else {
        let before = delivered_to_client(actions.drop_last());
        match actions.last() {
            SpliceAction::SendClient(item) => before.push(item),
            _ => before,
        }
    }
}

/// The events of a session while it lasts: those before the first one that
/// carries no item.
pub open spec fn live<F>(events: Seq<SpliceEvent<F>>) -> Seq<SpliceEvent<F>>
    decreases events.len(),
{
    if events.len() == 0 {
        Seq::empty()
    } else {
        let before = live(events.drop_last());
        if before.len() == events.len() - 1 && events.last().is_item() {
            before.push(events.last())
        } else {
            before
        }
    }
}

/// The events that carry the items of `items`, all sent by the client.
pub open spec fn client_events<F>(items: Seq<F>) -> Seq<SpliceEvent<F>> {
    items.map_values(|item: F| SpliceEvent::FromClient(item))
}

/// The events that carry the items of `items`, all sent by the upstream.
pub open spec fn upstream_events<F>(items: Seq<F>) -> Seq<SpliceEvent<F>> {
    items.map_values(|item: F| SpliceEvent::FromUpstream(item))
}

/// A session of items alone lasts to its end.
pub proof fn lemma_items_are_live<F>(events: Seq<SpliceEvent<F>>)
    requires
        forall|i: int| 0 <= i < events.len() ==> (#[trigger] events[i]).is_item(),
    ensures
        live(events) == events,
    decreases events.len(),
{
    if events.len() > 0 {
        lemma_items_are_live(events.drop_last());
    }
}

/// The events made of the client's items hold those items and none of the
/// upstream's.
pub proof fn lemma_client_events<F>(items: Seq<F>)
    ensures
        sent_by_client(client_events(items)) == items,
        sent_by_upstream(client_events(items)) == Seq::<F>::empty(),
        live(client_events(items)) == client_events(items),
    decreases items.len(),
{
    if items.len() > 0 {
        lemma_client_events(items.drop_last());
        assert(client_events(items).drop_last() =~= client_events(items.drop_last()));
    }
    lemma_items_are_live(client_events(items));
}

/// The events made of the upstream's items hold those items and none of the
/// client's.
pub proof fn lemma_upstream_events<F>(items: Seq<F>)
    ensures
        sent_by_upstream(upstream_events(items)) == items,
        sent_by_client(upstream_events(items)) == Seq::<F>::empty(),
        live(upstream_events(items)) == upstream_events(items),
    decreases items.len(),
{
    if items.len() > 0 {
        lemma_upstream_events(items.drop_last());
        assert(upstream_events(items).drop_last() =~= upstream_events(items.drop_last()));
    }
    lemma_items_are_live(upstream_events(items));
}

} // verus!
