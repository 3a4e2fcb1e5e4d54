//! A bounded first-in first-out queue.
//!
//! Waiting for a slot or an item is up to whoever shares the queue between
//! threads. Here the queue is held exclusively, so nobody else can make room or
//! add an item: a wait that has an end, ends without one.

use std::collections::VecDeque;

use vstd::prelude::*;

verus! {

/// A queue of at most `cap` items.
pub struct BoundedQueue<T> {
    items: VecDeque<T>,
    cap: usize,
}

impl<T> View for BoundedQueue<T> {
    type V = Seq<T>;

    closed spec fn view(&self) -> Seq<T> {
        self.items@
    }
}

impl<T> BoundedQueue<T> {
    /// How many items the queue can hold.
    pub closed spec fn capacity(&self) -> nat {
        self.cap as nat
    }

    /// The queue can hold at least one item, and holds no more than it can.
    #[verifier::type_invariant]
    closed spec fn bounded(self) -> bool {
        0 < self.cap && self.items@.len() <= self.cap
    }

    /// Whether there is no slot left.
    pub open spec fn full(&self) -> bool {
        self@.len() >= self.capacity()
    }

    /// Whether the queue holds no more than it can.
    pub open spec fn within(&self) -> bool {
        0 < self.capacity() && self@.len() <= self.capacity()
    }

    /// A queue without items. It can hold `cap` items, but at least one.
    pub fn new(cap: usize) -> (r: BoundedQueue<T>)
        ensures
            r@.len() == 0,
            r.within(),
            r.capacity() == (if cap == 0 {
                1nat
            } else {
                cap as nat
            }),
    {
        BoundedQueue {
            items: VecDeque::new(),
            cap: if cap == 0 {
                1
            } else {
                cap
            },
        }
    }

    /// Whether there is no slot left.
    pub fn is_full(&self) -> (r: bool)
        ensures
            r == self.full(),
            self.within(),
    {
        proof {
            use_type_invariant(self);
        }
        self.items.len() >= self.cap
    }

    /// Whether there is no item.
    pub fn is_empty(&self) -> (r: bool)
        ensures
            r == (self@.len() == 0),
            self.within(),
    {
        proof {
            use_type_invariant(self);
        }
        self.items.len() == 0
    }

    /// Adds an item at the end. In a full queue the wait of `timeout_ms` ends
    /// without a slot and the item comes back. The queue never holds more than it can.
    pub fn send_timeout(&mut self, item: T, timeout_ms: Option<u64>) -> (r: Result<(), T>)
        requires
            timeout_ms is None ==> !old(self).full(),
        ensures
            final(self).capacity() == old(self).capacity(),
            final(self).within(),
            final(self)@.len() > 0,
            match r {
                Ok(_) => !old(self).full() && final(self)@ == old(self)@.push(item),
                Err(back) => old(self).full() && *final(self) == *old(self) && back == item,
            },
    {
        proof {
            use_type_invariant(&*self);
        }
        if self.items.len() >= self.cap {
            return Err(item);
        }
        let mut items = VecDeque::new();
        std::mem::swap(&mut items, &mut self.items);
        items.push_back(item);
        self.items = items;
        Ok(())
    }

    /// Takes the first item. In an empty queue the wait of `timeout_ms` ends without one.
    pub fn recv_timeout(&mut self, timeout_ms: Option<u64>) -> (r: Option<T>)
        requires
            timeout_ms is None ==> old(self)@.len() > 0,
        ensures
            final(self).capacity() == old(self).capacity(),
            final(self).within(),
            match r {
                Some(item) => old(self)@.len() > 0 && item == old(self)@[0] && final(self)@
                    == old(self)@.drop_first(),
                None => old(self)@.len() == 0 && final(self)@ == old(self)@,
            },
    {
        proof {
            use_type_invariant(&*self);
        }
        let mut items = VecDeque::new();
        std::mem::swap(&mut items, &mut self.items);
        let r = items.pop_front();
        assert(r is Some ==> items@ =~= old(self)@.drop_first());
        self.items = items;
        r
    }

    /// Takes all items, in order.
    pub fn drain(&mut self) -> (r: Vec<T>)
        ensures
            final(self).capacity() == old(self).capacity(),
            final(self).within(),
            final(self)@.len() == 0,
            r@ == old(self)@,
    {
        proof {
            use_type_invariant(&*self);
        }
        let mut items = VecDeque::new();
        std::mem::swap(&mut items, &mut self.items);
        let ghost all = items@;
        let mut out: Vec<T> = Vec::new();
        loop
            invariant
                out@ + items@ == all,
            ensures
                out@ == all,
            decreases items@.len(),
        {
            let ghost before = items@;
            match items.pop_front() {
                Some(item) => {
                    let ghost so_far = out@;
                    out.push(item);
                    assert(out@ + items@ =~= so_far + before);
                },
                None => {
                    assert(out@ =~= all);
                    break ;
                },
            }
        }
        out
    }
}

} // verus!
