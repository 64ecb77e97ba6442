//! A double-ended queue of pending items that keeps its own count.
use std::collections::VecDeque;
use vstd::prelude::*;

verus! {

/// What popping the front of `items` returns, and what remains.
pub open spec fn front_popped<T>(items: Seq<T>) -> (Option<T>, Seq<T>) {
    if items.len() == 0 {
        (None, items)
    } else {
        (Some(items[0]), items.drop_first())
    }
}

/// A queue of items, front first, with an item count.
pub struct Queue<T> {
    items: VecDeque<T>,
    len: usize,
}

impl<T> View for Queue<T> {
    type V = Seq<T>;

    /// The queued items, front first.
    closed spec fn view(&self) -> Seq<T> {
        self.items@
    }
}

impl<T> Queue<T> {
    /// The kept count equals the number of queued items.
    pub closed spec fn wf(&self) -> bool {
        self.len == self.items@.len()
    }

    /// An empty queue.
    pub fn new() -> (q: Self)
        ensures
            q.wf(),
            q@ == Seq::<T>::empty(),
    {
        Queue { items: VecDeque::new(), len: 0 }
    }

    /// Puts `item` in front of all queued items.
    pub fn push_front(&mut self, item: T)
        requires
            old(self).wf(),
            old(self)@.len() < usize::MAX,
        ensures
            final(self).wf(),
            final(self)@ == seq![item] + old(self)@,
    {
        self.items.push_front(item);
        self.len = self.len + 1;
    }

    /// Puts `item` behind all queued items.
    pub fn push_back(&mut self, item: T)
        requires
            old(self).wf(),
            old(self)@.len() < usize::MAX,
        ensures
            final(self).wf(),
            final(self)@ == old(self)@.push(item),
    {
        self.items.push_back(item);
        self.len = self.len + 1;
    }

    /// Takes the front item out, or returns `None` when the queue is empty.
    pub fn pop_front(&mut self) -> (r: Option<T>)
        requires
            old(self).wf(),
        ensures
            final(self).wf(),
            (r, final(self)@) == front_popped(old(self)@),
    {
        if let Some(item) = self.items.pop_front() {
            self.len = self.len - 1;
            Some(item)
        } else {
            None
        }
    }

    /// The number of queued items.
    pub fn len(&self) -> (n: usize)
        requires
            self.wf(),
        ensures
            n == self@.len(),
    {
        self.len
    }

    /// Whether no item is queued.
    pub fn is_empty(&self) -> (b: bool)
        requires
            self.wf(),
        ensures
            b == (self@.len() == 0),
    {
        self.len == 0
    }
}

/// Items leave the front in the order they joined at the back: popping the
/// front after `x` joins at the back gives the old front (or `x` itself when
/// the queue was empty), and `x` stays last in what remains.
pub proof fn law_first_in_first_out<T>(items: Seq<T>, x: T)
    ensures
        items.len() == 0 ==> front_popped(items.push(x)) == (Some(x), Seq::<T>::empty()),
        items.len() > 0 ==> front_popped(items.push(x)) == (Some(items[0]), items.drop_first().push(
            x,
        )),
{
    if items.len() > 0 {
        assert(items.push(x).drop_first() =~= items.drop_first().push(x));
    } else {
        assert(items.push(x).drop_first() =~= Seq::<T>::empty());
    }
}

/// Popping the front right after `x` was put in front gives `x` back and
/// leaves the queue as it was, with the count it had.
pub proof fn law_push_front_then_pop_front<T>(items: Seq<T>, x: T)
    ensures
        front_popped(seq![x] + items) == (Some(x), items),
        front_popped(seq![x] + items).1.len() == items.len(),
{
    assert((seq![x] + items).drop_first() =~= items);
}

/// Every push adds one to the count, and a pop that returns an item takes one off.
pub proof fn law_count<T>(items: Seq<T>, x: T)
    ensures
        (seq![x] + items).len() == items.len() + 1,
        items.push(x).len() == items.len() + 1,
        front_popped(items).0 is Some ==> front_popped(items).1.len() == items.len() - 1,
        front_popped(items).0 is None <==> items.len() == 0,
{
}

} // verus!
