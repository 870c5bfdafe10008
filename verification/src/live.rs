//! A live connection: what one connected observer is sent, and in which
//! order. First the word that the stream stands, then the registrations that
//! are published while it stands, in the order of their publication.

use vstd::prelude::*;
use crate::hub::BroadcastHub;
use crate::hub::Delivery;
use crate::hub::DeliveryView;
use crate::hub::HubView;
use crate::model::RegistrationEvent;
use crate::model::UserView;

verus! {

/// A message on a live connection.
#[derive(Debug, PartialEq, Eq)]
pub enum LiveMessage {
    /// The stream stands. It carries no record.
    Connected,
    /// A user was registered.
    Registration(RegistrationEvent),
    /// The connection is alive. It carries no record and stands for no
    /// event.
    Heartbeat,
}

/// The mathematical value of a [`LiveMessage`].
pub enum LiveMessageView {
    Connected,
    Registration(UserView),
    Heartbeat,
}

impl View for LiveMessage {
    type V = LiveMessageView;

    open spec fn view(&self) -> LiveMessageView {
        match *self {
            LiveMessage::Connected => LiveMessageView::Connected,
            LiveMessage::Registration(event) => LiveMessageView::Registration(event@),
            LiveMessage::Heartbeat => LiveMessageView::Heartbeat,
        }
    }
}

/// What a live connection does next.
#[derive(Debug, PartialEq, Eq)]
pub enum LiveOutput {
    /// It sends this message.
    Send(LiveMessage),
    /// It has nothing to send until the next registration.
    Idle,
    /// Its subscription is closed: the stream ends.
    Closed,
}

/// The mathematical value of a [`LiveOutput`].
pub enum LiveOutputView {
    Send(LiveMessageView),
    Idle,
    Closed,
}

impl View for LiveOutput {
    type V = LiveOutputView;

    open spec fn view(&self) -> LiveOutputView {
        match *self {
            LiveOutput::Send(message) => LiveOutputView::Send(message@),
            LiveOutput::Idle => LiveOutputView::Idle,
            LiveOutput::Closed => LiveOutputView::Closed,
        }
    }
}

/// What a connection makes of a delivery: it sends an event on, waits where
/// nothing awaits it, and ends where its subscription is closed. News of
/// missed events is not sent on.
pub open spec fn forwarded(delivery: DeliveryView) -> LiveOutputView {
    match delivery {
        DeliveryView::Event(user) => LiveOutputView::Send(LiveMessageView::Registration(user)),
        DeliveryView::Lagged(_) => LiveOutputView::Idle,
        DeliveryView::Empty => LiveOutputView::Idle,
        DeliveryView::Closed => LiveOutputView::Closed,
    }
}

/// The mathematical value of a [`LiveConnection`].
pub struct LiveConnectionView {
    /// The handle of the connection's subscription.
    pub subscription: u64,
    /// Whether the client was told that the stream stands.
    pub greeted: bool,
}

/// What a connection does next, and the connection and the hub after it. A
/// connection that has not greeted its client does so before it touches the
/// hub. After that it hands on what its subscription receives; where it
/// fell behind, it skips the news of that and goes on with the oldest event
/// that was kept.
pub open spec fn live_next(connection: LiveConnectionView, hub: HubView) -> (
    LiveConnectionView,
    HubView,
    LiveOutputView,
) {
    if !connection.greeted {
        (
            LiveConnectionView { subscription: connection.subscription, greeted: true },
            hub,
            LiveOutputView::Send(LiveMessageView::Connected),
        )
    } else {
        let (first_hub, first) = hub.receive(connection.subscription);
        if first is Lagged {
            let (second_hub, second) = first_hub.receive(connection.subscription);
            (connection, second_hub, forwarded(second))
        } else {
            (connection, first_hub, forwarded(first))
        }
    }
}

/// One observer's connection to the hub.
#[derive(Debug, PartialEq, Eq)]
pub struct LiveConnection {
    subscription: u64,
    greeted: bool,
}

impl View for LiveConnection {
    type V = LiveConnectionView;

    closed spec fn view(&self) -> LiveConnectionView {
        LiveConnectionView { subscription: self.subscription, greeted: self.greeted }
    }
}

/// What a delivery is forwarded as.
fn forward(delivery: Delivery) -> (output: LiveOutput)
    ensures
        output@ == forwarded(delivery@),
{
    match delivery {
        Delivery::Event(event) => LiveOutput::Send(LiveMessage::Registration(event)),
        Delivery::Lagged(_) => LiveOutput::Idle,
        Delivery::Empty => LiveOutput::Idle,
        Delivery::Closed => LiveOutput::Closed,
    }
}

impl LiveConnection {
    /// Opens a connection: subscribes to the hub. The client has not been
    /// greeted yet. `None`, and nothing changes, where the hub has no handle
    /// left to hand out.
    pub fn open(hub: &mut BroadcastHub) -> (connection: Option<LiveConnection>)
        requires
            old(hub).wf(),
        ensures
            final(hub).wf(),
            match connection {
                Some(opened) => {
                    &&& old(hub)@.can_subscribe()
                    &&& final(hub)@ == old(hub)@.subscribe()
                    &&& opened@ == (LiveConnectionView {
                        subscription: old(hub)@.next_id,
                        greeted: false,
                    })
                },
                None => !old(hub)@.can_subscribe() && final(hub)@ == old(hub)@,
            },
    {
        match hub.subscribe() {
            Some(subscription) => Some(LiveConnection { subscription, greeted: false }),
            None => None,
        }
    }

    /// The handle of the connection's subscription.
    pub fn subscription(&self) -> (id: u64)
        ensures
            id == self@.subscription,
    {
        self.subscription
    }

    /// What the connection does next. Never waits.
    pub fn next(&mut self, hub: &mut BroadcastHub) -> (output: LiveOutput)
        requires
            old(hub).wf(),
        ensures
            final(hub).wf(),
            (final(self)@, final(hub)@, output@) == live_next(old(self)@, old(hub)@),
    {
        if !self.greeted {
            self.greeted = true;
            return LiveOutput::Send(LiveMessage::Connected);
        }
        let first = hub.receive(self.subscription);
        match first {
            Delivery::Lagged(_) => forward(hub.receive(self.subscription)),
            _ => forward(first),
        }
    }

    /// The message that keeps an idle connection alive.
    pub fn heartbeat() -> (message: LiveMessage)
        ensures
            message@ == LiveMessageView::Heartbeat,
    {
        LiveMessage::Heartbeat
    }

    /// Closes the connection: its subscription is released, with all that
    /// awaited it.
    pub fn close(self, hub: &mut BroadcastHub)
        requires
            old(hub).wf(),
        ensures
            final(hub).wf(),
            final(hub)@ == old(hub)@.unsubscribe(self@.subscription),
    {
        let _ = hub.unsubscribe(self.subscription);
    }
}

} // verus!
