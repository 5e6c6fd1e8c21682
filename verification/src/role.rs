//! Roles, and the path that selects each of them.

use vstd::prelude::*;
use vstd::string::StringSliceAdditionalSpecFns;
use vstd::utf8::encode_utf8_decode_utf8;

verus! {

/// The send handle of one connection: the number the transport gave it.
///
/// It is what the registry keeps of an open connection, and what a broadcast
/// names as a target.
#[derive(Clone, Copy, Debug, PartialEq, Eq, Hash, Structural)]
pub struct Handle {
    pub conn: u64,
}

/// What a connection is for. It is chosen once, by the path of the handshake.
#[derive(Clone, Copy, Debug, PartialEq, Eq, Structural)]
pub enum Role {
    /// Takes messages in and drops them.
    Receiver,
    /// Relays each of its messages to every open connection, through `out`.
    Sender { out: Handle },
    /// Asked for a path that nothing serves; the handshake is refused.
    NotFound,
}

/// The path that makes a connection a receiver.
pub const RECEIVER_PATH: &'static str = "/";

/// The path that makes a connection a sender.
pub const SENDER_PATH: &'static str = "/sender";

/// The dispatch table: the role that the path `path` selects for the connection
/// whose handle is `out`.
pub open spec fn role_of(path: Seq<char>, out: Handle) -> Role {
    if path == RECEIVER_PATH@ {
        Role::Receiver
    } else if path == SENDER_PATH@ {
        Role::Sender { out }
    } else {
        Role::NotFound
    }
}

/// Whether two texts hold the same characters.
pub fn same_text(a: &str, b: &str) -> (same: bool)
    ensures
        same == (a@ == b@),
{
    let left = a.as_bytes();
    let right = b.as_bytes();
    proof {
        // A text is what its bytes decode to, so equal bytes are equal texts.
        encode_utf8_decode_utf8(a@);
        encode_utf8_decode_utf8(b@);
    }
    if left.len() != right.len() {
        return false;
    }
    let mut i: usize = 0;
    while i < left.len()
        invariant
            i <= left.len(),
            left@ == a.spec_bytes(),
            right@ == b.spec_bytes(),
            left@.len() == right@.len(),
            forall|k: int| 0 <= k < i ==> left@[k] == right@[k],
        decreases left.len() - i,
    {
        if left[i] != right[i] {
            return false;
        }
        i += 1;
    }
    assert(left@ =~= right@);
    true
}

impl Role {
    /// The role for a handshake that asks for `path`, on the connection `out`.
    pub fn assign(path: &str, out: Handle) -> (role: Role)
        ensures
            role == role_of(path@, out),
    {
        if same_text(path, RECEIVER_PATH) {
            Role::Receiver
        } else if same_text(path, SENDER_PATH) {
            Role::Sender { out }
        } else {
            Role::NotFound
        }
    }

    /// Whether the handshake of a connection with this role is accepted.
    pub open spec fn admitted(self) -> bool {
        !(self is NotFound)
    }
}

} // verus!
