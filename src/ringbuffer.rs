use vstd::prelude::*;

verus! {

/// Position that a signed index names in a sequence of length `len`:
/// `i >= 0` counts from the front, `i < 0` from the back (`-1` is the last).
pub open spec fn slot(len: int, i: int) -> int {
    if i >= 0 {
        i
    } else {
        len + i
    }
}

/// Whether a signed index names an element of a sequence of length `len`.
pub open spec fn in_range(len: int, i: int) -> bool {
    0 <= slot(len, i) < len
}

/// What `push` makes of the contents `s` of a buffer of capacity `cap`.
pub open spec fn pushed<T>(s: Seq<T>, cap: nat, v: T) -> Seq<T> {
    if s.len() >= cap && s.len() > 0 {
        s.drop_first().push(v)
    } else {
        s.push(v)
    }
}

/// A bounded first-in first-out buffer. Pushing onto a full buffer evicts
/// the front element.
pub struct RingBuffer<T> {
    items: Vec<T>,
    capacity: usize,
}

impl<T> View for RingBuffer<T> {
    type V = Seq<T>;

    closed spec fn view(&self) -> Seq<T> {
        self.items@
    }
}

impl<T> RingBuffer<T> {
    /// The bound that the buffer was made with.
    pub closed spec fn cap(&self) -> nat {
        self.capacity as nat
    }

    /// The buffer never holds more than its capacity (or one element, for a
    /// buffer made with capacity zero).
    pub open spec fn wf(&self) -> bool {
        self@.len() <= self.cap() || self@.len() <= 1
    }

    pub fn new(capacity: usize) -> (r: Self)
        ensures
            r@ == Seq::<T>::empty(),
            r.cap() == capacity,
            r.wf(),
    {
        RingBuffer { items: Vec::new(), capacity }
    }

    /// Turns a signed index into a position, or `None` when it is out of range.
    fn position(&self, index: isize) -> (r: Option<usize>)
        ensures
            r.is_some() == in_range(self@.len() as int, index as int),
            r.is_some() ==> r.unwrap() as int == slot(self@.len() as int, index as int),
    {
        let len = self.items.len();
        if index >= 0 {
            let i = index as usize;
            if i < len {
                Some(i)
            } else {
                None
            }
        } else {
            let back = ((-1 - index) as usize) + 1;
            if back <= len {
                Some(len - back)
            } else {
                None
            }
        }
    }

    pub fn get(&self, index: isize) -> (r: Option<&T>)
        ensures
            r.is_some() == in_range(self@.len() as int, index as int),
            r.is_some() ==> *r.unwrap() == self@[slot(self@.len() as int, index as int)],
    {
        match self.position(index) {
            Some(i) => Some(&self.items[i]),
            None => None,
        }
    }

    pub fn get_mut(&mut self, index: isize) -> (r: Option<&mut T>)
        ensures
            r.is_some() == in_range(old(self)@.len() as int, index as int),
            r.is_some() ==> *r.unwrap() == old(self)@[slot(old(self)@.len() as int, index as int)],
            r.is_some() ==> final(self)@ == old(self)@.update(
                slot(old(self)@.len() as int, index as int),
                *final(r.unwrap()),
            ),
            r.is_none() ==> final(self)@ == old(self)@,
            final(self).cap() == old(self).cap(),
    {
        match self.position(index) {
            Some(i) => Some(&mut self.items[i]),
            None => None,
        }
    }

    pub fn push(&mut self, value: T)
        ensures
            final(self)@ == pushed(old(self)@, old(self).cap(), value),
            final(self).cap() == old(self).cap(),
            old(self).wf() ==> final(self).wf(),
    {
        let len = self.items.len();
        if len >= self.capacity && len > 0 {
            self.items.remove(0);
        }
        self.items.push(value);
    }

    pub fn pop_front(&mut self) -> (r: Option<T>)
        ensures
            old(self)@.len() == 0 ==> r.is_none() && final(self)@ == old(self)@,
            old(self)@.len() > 0 ==> r == Some(old(self)@[0]) && final(self)@
                == old(self)@.drop_first(),
            final(self).cap() == old(self).cap(),
    {
        if self.items.len() == 0 {
            None
        } else {
            Some(self.items.remove(0))
        }
    }

    pub fn pop_back(&mut self) -> (r: Option<T>)
        ensures
            old(self)@.len() == 0 ==> r.is_none() && final(self)@ == old(self)@,
            old(self)@.len() > 0 ==> r == Some(old(self)@.last()) && final(self)@
                == old(self)@.drop_last(),
            final(self).cap() == old(self).cap(),
    {
        self.items.pop()
    }

    pub fn len(&self) -> (r: usize)
        ensures
            r == self@.len(),
    {
        self.items.len()
    }

    pub fn clear(&mut self)
        ensures
            final(self)@ == Seq::<T>::empty(),
            final(self).cap() == old(self).cap(),
    {
        self.items.clear();
    }
}

} // verus!
