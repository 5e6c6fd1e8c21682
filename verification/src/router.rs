//! The router of one connection: it fixes the role at the handshake and hands
//! every later event to that role.

use crate::handler::{close_record, open_record, relay_of, Relay};
use crate::handshake::{
    built, is_upgrade, reply_of, requested_resource, resource_of, upgrade, upgrade_of,
    HandshakeError, Response,
};
use crate::log::Record;
use crate::payload::Payload;
use crate::registry::Registry;
use crate::role::{role_of, Handle, Role};
use vstd::prelude::*;

verus! {

/// The state of one connection: its own send handle and the role in charge.
#[derive(Debug, PartialEq, Eq)]
pub struct Router {
    sender: Handle,
    inner: Role,
}

/// What the transport reports of a connection.
pub enum Event {
    /// The handshake request, asking for `path`.
    Handshake { path: Seq<char> },
    Open,
    Message,
    Close,
    Error,
    Shutdown,
}

/// The role in charge after `event`, on the connection `sender` on which `role`
/// was in charge before: the handshake fixes it by its path, and no other event
/// touches it.
pub open spec fn role_after(role: Role, sender: Handle, event: Event) -> Role {
    match event {
        Event::Handshake { path } => role_of(path, sender),
        _ => role,
    }
}

/// The role in charge after all of `events`, in their order.
pub open spec fn role_after_all(role: Role, sender: Handle, events: Seq<Event>) -> Role
    decreases events.len(),
{
    if events.len() == 0 {
        role
    } else {
        role_after(role_after_all(role, sender, events.drop_last()), sender, events.last())
    }
}

/// The open connections after a connection with the role `role` and the handle
/// `sender` has opened: it is entered, unless it has no role or is there already.
pub open spec fn joined(role: Role, sender: Handle, open: Seq<Handle>) -> Seq<Handle> {
    if role.admitted() && !open.contains(sender) {
        open.push(sender)
    } else {
        open
    }
}

/// The open connections after a connection with the role `role` and the handle
/// `sender` has closed: it is struck out, if it has a role and was there.
pub open spec fn parted(role: Role, sender: Handle, open: Seq<Handle>) -> Seq<Handle> {
    if role.admitted() && open.contains(sender) {
        open.remove(open.index_of(sender))
    } else {
        open
    }
}

impl Router {
    #[verifier::type_invariant]
    spec fn bound(self) -> bool {
        self.inner matches Role::Sender { out } ==> out == self.sender
    }

    /// The send handle of the connection.
    pub closed spec fn spec_sender(&self) -> Handle {
        self.sender
    }

    /// The role in charge.
    pub closed spec fn spec_role(&self) -> Role {
        self.inner
    }

    /// The router of a connection that has just been accepted. Until the
    /// handshake says otherwise, a receiver is in charge.
    pub fn new(sender: Handle) -> (router: Router)
        ensures
            router.sender() == sender,
            router.role() == Role::Receiver,
    {
        Router { sender, inner: Role::Receiver }
    }

    /// The send handle of the connection.
    #[verifier::when_used_as_spec(spec_sender)]
    pub fn sender(&self) -> (sender: Handle)
        ensures
            sender == self.sender(),
    {
        self.sender
    }

    /// The role in charge. A sender broadcasts through the handle of its own
    /// connection.
    #[verifier::when_used_as_spec(spec_role)]
    pub fn role(&self) -> (role: Role)
        ensures
            role == self.role(),
            role matches Role::Sender { out } ==> out == self.sender(),
    {
        proof {
            use_type_invariant(self);
        }
        self.inner
    }

    /// The handshake, given the path that was asked for and what `ws` built for
    /// the request: the path fixes the role, and the role gives the answer. There
    /// always is one.
    pub fn on_handshake(&mut self, path: &str, upgraded: Result<Response, ws::Error>) -> (r: Result<
        Response,
        HandshakeError,
    >)
        ensures
            final(self).sender() == old(self).sender(),
            final(self).role() == role_of(path@, old(self).sender()),
            final(self).role() == role_after(
                old(self).role(),
                old(self).sender(),
                Event::Handshake { path: path@ },
            ),
            r matches Ok(res) && res@ == reply_of(final(self).role(), built(upgraded)),
    {
        let out = self.sender;
        self.inner = Role::assign(path, out);
        self.inner.answer(upgraded)
    }

    /// The handshake request `req` has come in: the role is fixed by the path it
    /// asks for, and the role answers it.
    ///
    /// Every request is answered: with the upgrade that `ws` builds for it on
    /// the path of a receiver or a sender, with `400 Bad Request` where `ws`
    /// builds none on such a path, and with `404 Not Found` on any other path.
    pub fn on_request(&mut self, req: &ws::Request) -> (r: Result<Response, HandshakeError>)
        ensures
            final(self).sender() == old(self).sender(),
            final(self).role() == role_of(resource_of(*req), old(self).sender()),
            final(self).role() == role_after(
                old(self).role(),
                old(self).sender(),
                Event::Handshake { path: resource_of(*req) },
            ),
            r matches Ok(res) && res@ == reply_of(final(self).role(), upgrade_of(*req)),
            upgrade_of(*req) matches Some(up) ==> is_upgrade(up),
    {
        let path = requested_resource(req);
        let upgraded = upgrade(req);
        self.on_handshake(path.as_str(), upgraded)
    }

    /// The connection has opened. With a role, it is entered into `registry` and
    /// logged as connected; the role stays as it is.
    pub fn on_open(&mut self, registry: &mut Registry) -> (entry: Option<Record>)
        ensures
            *final(self) == *old(self),
            final(self).role() == role_after(old(self).role(), old(self).sender(), Event::Open),
            final(registry)@ == joined(old(self).role(), old(self).sender(), old(registry)@),
            match entry {
                Some(record) => open_record(old(self).role()) == Some(record@),
                None => open_record(old(self).role()) is None,
            },
    {
        match self.inner {
            Role::NotFound => {},
            _ => {
                registry.add(self.sender);
            },
        }
        self.inner.on_open()
    }

    /// A message has come in, and the role in charge deals with it: a sender
    /// logs it and relays it to every connection in `registry`, any other role
    /// drops it. The role stays as it is.
    pub fn on_message(&mut self, registry: &Registry, msg: Payload) -> (relay: Relay)
        ensures
            *final(self) == *old(self),
            final(self).role() == role_after(old(self).role(), old(self).sender(), Event::Message),
            relay@ == relay_of(old(self).role(), registry@, msg@),
            relay.broadcast matches Some(broadcast) ==> broadcast.payload == msg
                && broadcast.targets@.no_duplicates(),
    {
        self.inner.on_message(registry, msg)
    }

    /// The connection has closed. With a role, it is struck from `registry` and
    /// logged as closed; the role stays as it is.
    pub fn on_close(&mut self, registry: &mut Registry) -> (entry: Option<Record>)
        ensures
            *final(self) == *old(self),
            final(self).role() == role_after(old(self).role(), old(self).sender(), Event::Close),
            final(registry)@ == parted(old(self).role(), old(self).sender(), old(registry)@),
            !final(registry)@.contains(old(self).sender()) || !old(self).role().admitted(),
            match entry {
                Some(record) => close_record(old(self).role()) == Some(record@),
                None => close_record(old(self).role()) is None,
            },
    {
        match self.inner {
            Role::NotFound => {},
            _ => {
                registry.remove(self.sender);
            },
        }
        self.inner.on_close()
    }

    /// The transport has reported an error. No role recovers from one: nothing
    /// changes, nothing is logged, nothing is sent.
    pub fn on_error(&mut self)
        ensures
            *final(self) == *old(self),
            final(self).role() == role_after(old(self).role(), old(self).sender(), Event::Error),
    {
    }

    /// The transport is shutting down. Nothing changes, nothing is logged,
    /// nothing is sent.
    pub fn on_shutdown(&mut self)
        ensures
            *final(self) == *old(self),
            final(self).role() == role_after(old(self).role(), old(self).sender(), Event::Shutdown),
    {
    }
}

} // verus!
