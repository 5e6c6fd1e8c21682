//! The connections that are open right now, and the fan-out of a payload to them.

use crate::payload::{Payload, PayloadView};
use crate::role::Handle;
use vstd::prelude::*;

verus! {

/// The open connections, each once, in the order in which they opened.
#[derive(Debug)]
pub struct Registry {
    open: Vec<Handle>,
}

/// One payload, the connection it comes from and the connections it goes to.
/// Each target gets its own copy, and a target that cannot take it is passed
/// over: the others still get theirs.
#[derive(Clone, Debug, PartialEq, Eq)]
pub struct Broadcast {
    pub from: Handle,
    pub targets: Vec<Handle>,
    pub payload: Payload,
}

/// What a broadcast holds.
pub struct BroadcastView {
    pub from: Handle,
    pub targets: Seq<Handle>,
    pub payload: PayloadView,
}

impl View for Broadcast {
    type V = BroadcastView;

    open spec fn view(&self) -> BroadcastView {
        BroadcastView { from: self.from, targets: self.targets@, payload: self.payload@ }
    }
}

impl View for Registry {
    type V = Seq<Handle>;

    closed spec fn view(&self) -> Seq<Handle> {
        self.open@
    }
}

impl Registry {
    #[verifier::type_invariant]
    spec fn distinct(self) -> bool {
        self.open@.no_duplicates()
    }

    /// A registry with no connection in it.
    pub fn new() -> (registry: Registry)
        ensures
            registry@ == Seq::<Handle>::empty(),
    {
        Registry { open: Vec::new() }
    }

    /// How many connections are open.
    pub fn len(&self) -> (n: usize)
        ensures
            n == self@.len(),
            self@.no_duplicates(),
    {
        proof {
            use_type_invariant(self);
        }
        self.open.len()
    }

    /// Whether the connection `handle` is open.
    pub fn contains(&self, handle: Handle) -> (found: bool)
        ensures
            found == self@.contains(handle),
    {
        let mut i: usize = 0;
        while i < self.open.len()
            invariant
                i <= self.open.len(),
                forall|k: int| 0 <= k < i ==> self.open@[k] != handle,
            decreases self.open.len() - i,
        {
            if self.open[i] == handle {
                return true;
            }
            i += 1;
        }
        false
    }

    /// Enters `handle` as open. A connection that is open already stays where it
    /// is; the result says whether `handle` was new.
    pub fn add(&mut self, handle: Handle) -> (added: bool)
        ensures
            added == !old(self)@.contains(handle),
            final(self)@ == if added {
                old(self)@.push(handle)
            } else {
                old(self)@
            },
            final(self)@.no_duplicates(),
    {
        proof {
            use_type_invariant(&*self);
        }
        if self.contains(handle) {
            return false;
        }
        let mut open = Vec::new();
        std::mem::swap(&mut open, &mut self.open);
        open.push(handle);
        self.open = open;
        true
    }

    /// Strikes `handle` out. The others keep their order; the result says
    /// whether `handle` was open.
    pub fn remove(&mut self, handle: Handle) -> (removed: bool)
        ensures
            removed == old(self)@.contains(handle),
            final(self)@ == if removed {
                old(self)@.remove(old(self)@.index_of(handle))
            } else {
                old(self)@
            },
            !final(self)@.contains(handle),
            final(self)@.no_duplicates(),
    {
        proof {
            use_type_invariant(&*self);
        }
        let ghost before = self.open@;
        let mut open = Vec::new();
        std::mem::swap(&mut open, &mut self.open);
        let mut i: usize = 0;
        while i < open.len()
            invariant
                i <= open.len(),
                open@ == before,
                before == old(self)@,
                before.no_duplicates(),
                forall|k: int| 0 <= k < i ==> open@[k] != handle,
            decreases open.len() - i,
        {
            if open[i] == handle {
                open.remove(i);
                proof {
                    let at = before.index_of(handle);
                    assert(before[i as int] == handle);
                    assert(at == i);
                    lemma_removed_is_gone(before, i as int);
                }
                self.open = open;
                return true;
            }
            i += 1;
        }
        self.open = open;
        false
    }

    /// The open connections as they are now.
    pub fn targets(&self) -> (targets: Vec<Handle>)
        ensures
            targets@ == self@,
            targets@.no_duplicates(),
    {
        proof {
            use_type_invariant(self);
        }
        let mut targets: Vec<Handle> = Vec::new();
        let mut i: usize = 0;
        while i < self.open.len()
            invariant
                i <= self.open.len(),
                targets@ == self.open@.take(i as int),
            decreases self.open.len() - i,
        {
            targets.push(self.open[i]);
            assert(self.open@.take(i as int).push(self.open@[i as int]) =~= self.open@.take(
                i + 1,
            ));
            i += 1;
        }
        assert(self.open@.take(self.open@.len() as int) =~= self.open@);
        targets
    }

    /// The fan-out of `payload` from the connection `from`: to every connection
    /// that is open at this call, once each and `from` not left out, the payload
    /// as it was given.
    pub fn broadcast(&self, from: Handle, payload: Payload) -> (out: Broadcast)
        ensures
            out.from == from,
            out.targets@ == self@,
            out.targets@.no_duplicates(),
            out.payload == payload,
    {
        Broadcast { from, targets: self.targets(), payload }
    }
}

/// A list without duplicates no longer holds the value that stood at `at` once
/// that entry is removed; it still has no duplicates, and holds every other
/// value that it held.
pub(crate) proof fn lemma_removed_is_gone(s: Seq<Handle>, at: int)
    requires
        s.no_duplicates(),
        0 <= at < s.len(),
    ensures
        !s.remove(at).contains(s[at]),
        s.remove(at).no_duplicates(),
        forall|h: Handle| s.contains(h) && h != s[at] ==> s.remove(at).contains(h),
{
    let rest = s.remove(at);
    assert forall|h: Handle| s.contains(h) && h != s[at] implies rest.contains(h) by {
        let i = choose|i: int| 0 <= i < s.len() && s[i] == h;
        if i < at {
            assert(rest[i] == h);
        } else {
            assert(rest[i - 1] == h);
        }
    }
    assert forall|k: int| 0 <= k < rest.len() implies rest[k] != s[at] by {
        if k < at {
            assert(rest[k] == s[k]);
        } else {
            assert(rest[k] == s[k + 1]);
        }
    }
    assert forall|j: int, k: int| 0 <= j < rest.len() && 0 <= k < rest.len() && j != k implies rest[j]
        != rest[k] by {
        let oj = if j < at { j } else { j + 1 };
        let ok = if k < at { k } else { k + 1 };
        assert(rest[j] == s[oj]);
        assert(rest[k] == s[ok]);
    }
}

} // verus!
