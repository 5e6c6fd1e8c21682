//! What holds of the bridge on every input, proved from the contracts above.

use crate::handler::{close_record, name_of, open_record, relay_of, RelayView};
use crate::handshake::{
    bare, is_upgrade, reply_of, ResponseView, BAD_REQUEST_REASON, BAD_REQUEST_STATUS,
    NOT_FOUND_REASON, NOT_FOUND_STATUS,
};
use crate::log::{closed, connected, RECEIVER_NAME};
use crate::payload::PayloadView;
use crate::registry::{lemma_removed_is_gone, BroadcastView};
use crate::role::{role_of, Handle, Role, RECEIVER_PATH, SENDER_PATH};
use crate::router::{joined, parted, role_after, role_after_all, Event};
use vstd::prelude::*;

verus! {

/// The two paths that are served differ, so each selects its own role.
pub proof fn law_paths_differ()
    ensures
        RECEIVER_PATH@ != SENDER_PATH@,
{
    reveal_strlit("/");
    reveal_strlit("/sender");
    assert(RECEIVER_PATH@.len() == 1);
    assert(SENDER_PATH@.len() == 7);
}

/// A connection that asks for `/` is a receiver. Whatever it then sends, while
/// whatever connections are open, nothing is logged and nothing is broadcast.
/// Its opening and its closing are logged, one entry each, and once it has
/// closed it is no longer among the open connections.
pub proof fn law_receiver_is_a_sink(out: Handle, open: Seq<Handle>, payload: PayloadView)
    requires
        open.no_duplicates(),
    ensures
        role_of(RECEIVER_PATH@, out) == Role::Receiver,
        relay_of(Role::Receiver, open, payload) == (RelayView { log: None, broadcast: None }),
        open_record(Role::Receiver) == Some(connected(RECEIVER_NAME@)),
        close_record(Role::Receiver) == Some(closed(RECEIVER_NAME@)),
        joined(Role::Receiver, out, open).contains(out),
        !parted(Role::Receiver, out, joined(Role::Receiver, out, open)).contains(out),
{
    lemma_joined(Role::Receiver, out, open);
    lemma_parted(Role::Receiver, out, joined(Role::Receiver, out, open));
}

/// A connection that asks for `/sender` is a sender that broadcasts through its
/// own handle. What it sends goes, as it is, to exactly the connections that are
/// open at that moment, once to each; if the sender's own connection is among
/// them, as it is once it has opened, it gets the payload too.
pub proof fn law_sender_reaches_all(out: Handle, open: Seq<Handle>, payload: PayloadView)
    requires
        open.no_duplicates(),
    ensures
        role_of(SENDER_PATH@, out) == (Role::Sender { out }),
        relay_of(Role::Sender { out }, open, payload).broadcast == Some(
            BroadcastView { from: out, targets: open, payload },
        ),
        forall|to: Handle|
            open.contains(to) ==> relay_of(
                Role::Sender { out },
                open,
                payload,
            ).broadcast->0.targets.contains(to),
        relay_of(
            Role::Sender { out },
            joined(Role::Sender { out }, out, open),
            payload,
        ).broadcast->0.targets.contains(out),
        joined(Role::Sender { out }, out, open).no_duplicates(),
{
    law_paths_differ();
    lemma_joined(Role::Sender { out }, out, open);
}

/// A connection that asks for any other path has no role. Its handshake is
/// answered with `404 Not Found`, whether or not an upgrade was built for the
/// request, and nothing follows from any later event: no log entry, no
/// broadcast, no place among the open connections.
pub proof fn law_unknown_path_is_refused(
    path: Seq<char>,
    out: Handle,
    upgraded: Option<ResponseView>,
    open: Seq<Handle>,
    payload: PayloadView,
)
    requires
        path != RECEIVER_PATH@,
        path != SENDER_PATH@,
    ensures
        role_of(path, out) == Role::NotFound,
        reply_of(role_of(path, out), upgraded).status == NOT_FOUND_STATUS,
        reply_of(role_of(path, out), upgraded).reason == NOT_FOUND_REASON@,
        upgraded matches Some(up) ==> reply_of(role_of(path, out), upgraded).headers == up.headers
            && reply_of(role_of(path, out), upgraded).body == up.body,
        open_record(Role::NotFound) is None,
        close_record(Role::NotFound) is None,
        relay_of(Role::NotFound, open, payload) == (RelayView { log: None, broadcast: None }),
        joined(Role::NotFound, out, open) == open,
        parted(Role::NotFound, out, open) == open,
{
}

/// Every handshake is answered, and the answer lets the connection in exactly
/// where the path is served and an upgrade was built: that upgrade is then the
/// answer. A served path without an upgrade is answered `400 Bad Request`, an
/// unserved one `404 Not Found`.
pub proof fn law_answer_admits_only_upgrades(
    path: Seq<char>,
    out: Handle,
    upgraded: Option<ResponseView>,
)
    requires
        upgraded matches Some(up) ==> is_upgrade(up),
    ensures
        reply_of(role_of(path, out), upgraded).status == 101 <==> role_of(path, out).admitted()
            && upgraded is Some,
        role_of(path, out).admitted() && upgraded is Some ==> reply_of(role_of(path, out), upgraded)
            == upgraded->0,
        role_of(path, out).admitted() && upgraded is None ==> reply_of(role_of(path, out), upgraded)
            == bare(BAD_REQUEST_STATUS, BAD_REQUEST_REASON@),
        !role_of(path, out).admitted() ==> reply_of(role_of(path, out), upgraded).status
            == NOT_FOUND_STATUS,
{
}

/// Once the handshake has fixed the role, it stays: whatever events follow, in
/// whatever number and order, as long as none of them is another handshake, the
/// same role is in charge after them.
pub proof fn law_role_outlasts_events(role: Role, sender: Handle, events: Seq<Event>)
    requires
        forall|i: int| 0 <= i < events.len() ==> !(#[trigger] events[i] is Handshake),
    ensures
        role_after_all(role, sender, events) == role,
    decreases events.len(),
{
    if events.len() > 0 {
        let earlier = events.drop_last();
        assert forall|i: int| 0 <= i < earlier.len() implies !(#[trigger] earlier[i] is Handshake) by {
            assert(earlier[i] == events[i]);
        }
        law_role_outlasts_events(role, sender, earlier);
        assert(!(events[events.len() - 1] is Handshake));
    }
}

/// Fixing the role is idempotent: a handshake for the same path, made again,
/// leaves the role that the first one fixed, whatever was in charge before.
pub proof fn law_handshake_is_idempotent(role: Role, sender: Handle, path: Seq<char>)
    ensures
        role_after(role_after(role, sender, Event::Handshake { path }), sender, Event::Handshake { path })
            == role_after(role, sender, Event::Handshake { path }),
        role_after(role, sender, Event::Handshake { path }) == role_of(path, sender),
{
}

/// Only the two served paths let a connection in: a role is admitted exactly
/// where the path is one of them, a role is spoken of in the log exactly where it
/// is admitted, and a sender broadcasts through the handle of its own connection.
pub proof fn law_only_served_paths_admit(path: Seq<char>, out: Handle)
    ensures
        role_of(path, out).admitted() <==> (path == RECEIVER_PATH@ || path == SENDER_PATH@),
        role_of(path, out) matches Role::Sender { out: through } ==> through == out,
        name_of(role_of(path, out)) is Some <==> role_of(path, out).admitted(),
{
}

/// A connection that is not open gets nothing. With no connection open, a
/// sender's message is still taken and goes to nobody; and a connection that has
/// closed before the message came is not among its targets, while every other
/// open connection still is.
pub proof fn law_closed_targets_are_skipped(
    out: Handle,
    role: Role,
    gone: Handle,
    open: Seq<Handle>,
    payload: PayloadView,
)
    requires
        open.no_duplicates(),
        role.admitted(),
    ensures
        relay_of(Role::Sender { out }, Seq::empty(), payload).broadcast == Some(
            BroadcastView { from: out, targets: Seq::empty(), payload },
        ),
        !relay_of(
            Role::Sender { out },
            parted(role, gone, open),
            payload,
        ).broadcast->0.targets.contains(gone),
        forall|to: Handle|
            open.contains(to) && to != gone ==> relay_of(
                Role::Sender { out },
                parted(role, gone, open),
                payload,
            ).broadcast->0.targets.contains(to),
        parted(role, gone, open).no_duplicates(),
{
    lemma_parted(role, gone, open);
}

/// Opening keeps the open connections distinct, keeps those that were open,
/// and, for a connection with a role, ends with it among them.
proof fn lemma_joined(role: Role, sender: Handle, open: Seq<Handle>)
    requires
        open.no_duplicates(),
    ensures
        joined(role, sender, open).no_duplicates(),
        forall|h: Handle| open.contains(h) ==> joined(role, sender, open).contains(h),
        role.admitted() ==> joined(role, sender, open).contains(sender),
{
    let after = joined(role, sender, open);
    if role.admitted() && !open.contains(sender) {
        assert(after[open.len() as int] == sender);
        assert forall|h: Handle| open.contains(h) implies after.contains(h) by {
            let i = choose|i: int| 0 <= i < open.len() && open[i] == h;
            assert(after[i] == h);
        }
    }
}

/// Closing keeps the open connections distinct, keeps every other one, and,
/// for a connection with a role, ends without it among them.
proof fn lemma_parted(role: Role, sender: Handle, open: Seq<Handle>)
    requires
        open.no_duplicates(),
    ensures
        parted(role, sender, open).no_duplicates(),
        forall|h: Handle| open.contains(h) && h != sender ==> parted(role, sender, open).contains(h),
        role.admitted() ==> !parted(role, sender, open).contains(sender),
{
    if role.admitted() && open.contains(sender) {
        let at = open.index_of(sender);
        assert(0 <= at < open.len() && open[at] == sender);
        lemma_removed_is_gone(open, at);
    }
}

} // verus!
