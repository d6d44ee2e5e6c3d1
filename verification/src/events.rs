//! Shared value types: the kind of a tracked file and the change events
//! that watchers emit towards the orchestrator.

use vstd::prelude::*;

verus! {

/// The kind of tracked source file a watch target or change event refers to.
#[derive(Clone, Copy, PartialEq, Eq, Structural, Debug)]
pub enum FileKind {
    /// A primary document source file.
    Tex,
    /// The bibliography data file.
    Bib,
}

/// A change notification emitted by a watcher when the modification time
/// of its target advanced past the recorded baseline. Paths are carried
/// as raw bytes; the surrounding program converts to and from its own
/// path representation.
#[derive(Debug)]
pub struct ChangeEvent {
    pub kind: FileKind,
    pub path: Vec<u8>,
}

/// The event aggregator: a first-in-first-out buffer merging the change
/// events of all watchers into one ordered stream for the orchestrator.
/// Events leave in exactly the order they entered and none is ever
/// dropped. The surrounding program carries events between threads on a
/// channel with the same contract; this type is the verified statement
/// of that contract and serves wherever the stream is handled within
/// one thread.
pub struct EventQueue {
    items: Vec<ChangeEvent>,
}

impl View for EventQueue {
    type V = Seq<ChangeEvent>;

    closed spec fn view(&self) -> Seq<ChangeEvent> {
        self.items@
    }
}

impl EventQueue {
    /// An empty queue.
    pub fn new() -> (q: EventQueue)
        ensures
            q@ == Seq::<ChangeEvent>::empty(),
    {
        let q = EventQueue { items: Vec::new() };
        proof {
            assert(q@ =~= Seq::<ChangeEvent>::empty());
        }
        q
    }

    /// How many events are waiting.
    pub fn len(&self) -> (n: usize)
        ensures
            n == self@.len(),
    {
        self.items.len()
    }

    /// Appends an event at the back. No event is ever dropped.
    pub fn enqueue(&mut self, e: ChangeEvent)
        ensures
            final(self)@ == old(self)@.push(e),
    {
        self.items.push(e);
    }

    /// Removes and returns the oldest waiting event, if any: delivery
    /// is strictly first-in-first-out.
    pub fn dequeue(&mut self) -> (r: Option<ChangeEvent>)
        ensures
            old(self)@.len() == 0 ==> r is None && final(self)@ == old(self)@,
            old(self)@.len() > 0 ==> (match r {
                Some(e) => e == old(self)@[0] && final(self)@ == old(self)@.skip(1),
                None => false,
            }),
    {
        if self.items.len() == 0 {
            None
        } else {
            let e = self.items.remove(0);
            proof {
                assert(self.items@ =~= old(self)@.skip(1));
            }
            Some(e)
        }
    }
}

/// Copies the first `n` bytes of a byte string.
pub fn copy_prefix(v: &Vec<u8>, n: usize) -> (r: Vec<u8>)
    requires
        n <= v@.len(),
    ensures
        r@ == v@.take(n as int),
{
    let mut r: Vec<u8> = Vec::new();
    let mut i: usize = 0;
    while i < n
        invariant
            i <= n <= v@.len(),
            r@ == v@.take(i as int),
        decreases n - i,
    {
        r.push(v[i]);
        i = i + 1;
        proof {
            assert(v@.take(i as int) =~= v@.take(i as int - 1).push(v@[i as int - 1]));
        }
    }
    r
}

/// Copies a byte string. Used where an owned copy of a path is needed.
pub fn copy_bytes(v: &Vec<u8>) -> (r: Vec<u8>)
    ensures
        r@ == v@,
{
    let n = v.len();
    let r = copy_prefix(v, n);
    proof {
        assert(v@.take(v@.len() as int) =~= v@);
    }
    r
}

} // verus!
