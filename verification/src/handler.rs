//! What each role does with the events of its connection.

use crate::log::{closed, connected, said, Record, RecordView, RECEIVER_NAME, SENDER_NAME};
use crate::payload::{display_of, Payload, PayloadView};
use crate::registry::{Broadcast, BroadcastView, Registry};
use crate::role::{Handle, Role};
use vstd::prelude::*;

verus! {

/// What follows from one message: at most one log entry, written first, and at
/// most one broadcast.
#[derive(Clone, Debug, PartialEq, Eq)]
pub struct Relay {
    pub log: Option<Record>,
    pub broadcast: Option<Broadcast>,
}

/// What a relay holds.
pub struct RelayView {
    pub log: Option<RecordView>,
    pub broadcast: Option<BroadcastView>,
}

impl View for Relay {
    type V = RelayView;

    open spec fn view(&self) -> RelayView {
        RelayView {
            log: match self.log {
                Some(record) => Some(record@),
                None => None,
            },
            broadcast: match self.broadcast {
                Some(broadcast) => Some(broadcast@),
                None => None,
            },
        }
    }
}

/// How a connection with the role `role` is called in the log. A connection
/// without a role is never spoken of.
pub open spec fn name_of(role: Role) -> Option<Seq<char>> {
    match role {
        Role::Receiver => Some(RECEIVER_NAME@),
        Role::Sender { .. } => Some(SENDER_NAME@),
        Role::NotFound => None,
    }
}

/// The log entry for the opening of a connection with the role `role`.
pub open spec fn open_record(role: Role) -> Option<RecordView> {
    match name_of(role) {
        Some(name) => Some(connected(name)),
        None => None,
    }
}

/// The log entry for the closing of a connection with the role `role`.
pub open spec fn close_record(role: Role) -> Option<RecordView> {
    match name_of(role) {
        Some(name) => Some(closed(name)),
        None => None,
    }
}

/// What follows from the message `payload` on a connection with the role `role`
/// while the connections `open` are open: a sender logs it and sends it through
/// its handle to all of them, every other role lets it fall.
pub open spec fn relay_of(role: Role, open: Seq<Handle>, payload: PayloadView) -> RelayView {
    match role {
        Role::Sender { out } => RelayView {
            log: Some(said(SENDER_NAME@, display_of(payload))),
            broadcast: Some(BroadcastView { from: out, targets: open, payload }),
        },
        _ => RelayView { log: None, broadcast: None },
    }
}

impl Role {
    /// How a connection with this role is called in the log.
    pub fn name(&self) -> (name: Option<&'static str>)
        ensures
            match name {
                Some(text) => name_of(*self) == Some(text@),
                None => name_of(*self) is None,
            },
    {
        match self {
            Role::Receiver => Some(RECEIVER_NAME),
            Role::Sender { .. } => Some(SENDER_NAME),
            Role::NotFound => None,
        }
    }

    /// The connection has opened: a receiver and a sender are logged as connected.
    pub fn on_open(&self) -> (entry: Option<Record>)
        ensures
            match entry {
                Some(record) => open_record(*self) == Some(record@),
                None => open_record(*self) is None,
            },
    {
        match self.name() {
            Some(name) => Some(Record::connected(name)),
            None => None,
        }
    }

    /// The connection has closed: a receiver and a sender are logged as closed.
    pub fn on_close(&self) -> (entry: Option<Record>)
        ensures
            match entry {
                Some(record) => close_record(*self) == Some(record@),
                None => close_record(*self) is None,
            },
    {
        match self.name() {
            Some(name) => Some(Record::closed(name)),
            None => None,
        }
    }

    /// A message has come in. A sender logs it and hands it, as it came, to every
    /// connection that `registry` holds at this call; any other role drops it.
    pub fn on_message(&self, registry: &Registry, msg: Payload) -> (relay: Relay)
        ensures
            relay@ == relay_of(*self, registry@, msg@),
            relay.broadcast matches Some(broadcast) ==> broadcast.payload == msg
                && broadcast.targets@.no_duplicates(),
    {
        match self {
            Role::Sender { out } => {
                let entry = Record::said(SENDER_NAME, msg.display());
                Relay { log: Some(entry), broadcast: Some(registry.broadcast(*out, msg)) }
            },
            _ => Relay { log: None, broadcast: None },
        }
    }
}

} // verus!
