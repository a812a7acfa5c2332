use vstd::prelude::*;

verus! {

/// The contents of a store of capacity `cap` holding `s` after `v` is
/// pushed: `v` goes on top if there is room, else nothing changes.
pub open spec fn pushed<T>(s: Seq<T>, v: T, cap: nat) -> Seq<T> {
    if s.len() < cap {
        s.push(v)
    } else {
        s
    }
}

/// The contents of a store holding `s` after one pop: the top value
/// leaves, and an empty store stays empty.
pub open spec fn popped<T>(s: Seq<T>) -> Seq<T> {
    if s.len() == 0 {
        s
    } else {
        s.drop_last()
    }
}

/// The value that a pop hands out of a store holding `s`: the last one
/// pushed, or none when the store is empty.
pub open spec fn top<T>(s: Seq<T>) -> Option<T> {
    if s.len() == 0 {
        None
    } else {
        Some(s.last())
    }
}

/// Returned by `push` on a full store; it hands the rejected value back.
#[derive(Debug)]
pub struct CapacityExceeded<T>(pub T);

/// Stack storage for up to `N` values of `T`.
///
/// `items` holds the occupied slots `[0, pos)` in the order they were
/// pushed; `pos` is the cursor, the number of occupied slots.
#[derive(Debug)]
pub struct FlowerPot<T, const N: usize> {
    items: Vec<T>,
    pos: usize,
}

impl<T, const N: usize> View for FlowerPot<T, N> {
    type V = Seq<T>;

    /// The occupied region, bottom first.
    closed spec fn view(&self) -> Seq<T> {
        self.items@
    }
}

impl<T, const N: usize> FlowerPot<T, N> {
    /// The cursor counts the occupied slots and never passes the capacity.
    pub closed spec fn wf(&self) -> bool {
        &&& self.items@.len() == self.pos as int
        &&& self.pos <= N
    }

    /// Creates an empty store.
    pub fn new() -> (r: FlowerPot<T, N>)
        ensures
            r.wf(),
            r@ == Seq::<T>::empty(),
    {
        FlowerPot { items: Vec::new(), pos: 0 }
    }

    /// Whether every slot is occupied.
    pub fn full(&self) -> (r: bool)
        requires
            self.wf(),
        ensures
            r == (self@.len() == N as int),
    {
        self.pos >= N
    }

    /// Whether no slot is occupied.
    pub fn empty(&self) -> (r: bool)
        requires
            self.wf(),
        ensures
            r == (self@.len() == 0),
    {
        self.pos == 0
    }

    /// The number of occupied slots.
    pub fn len(&self) -> (r: usize)
        requires
            self.wf(),
        ensures
            r as int == self@.len(),
    {
        self.pos
    }
    /// Pushes `item` onto the store. On a full store nothing changes and
    /// `item` comes back inside the error.
    pub fn push(&mut self, item: T) -> (r: Result<(), CapacityExceeded<T>>)
        requires
            old(self).wf(),
        ensures
            final(self).wf(),
            final(self)@ == pushed(old(self)@, item, N as nat),
            r is Ok <==> old(self)@.len() < N as int,
            r matches Err(e) ==> e.0 == item,
    {
        if self.full() {
            return Err(CapacityExceeded(item));
        }
        self.items.push(item);
        self.pos = self.pos + 1;
        Ok(())
    }

    /// Takes the top value out of the store, or returns `None` when it is
    /// empty.
    pub fn pop(&mut self) -> (r: Option<T>)
        requires
            old(self).wf(),
        ensures
            final(self).wf(),
            final(self)@ == popped(old(self)@),
            r == top(old(self)@),
    {
        if self.empty() {
            return None;
        }
        self.pos = self.pos - 1;
        self.items.pop()
    }

    /// The value at `index`, if that slot is occupied.
    pub fn get(&self, index: usize) -> (r: Option<&T>)
        requires
            self.wf(),
        ensures
            r == (if (index as int) < self@.len() {
                Some(&self@[index as int])
            } else {
                None
            }),
    {
        if index >= self.pos {
            return None;
        }
        Some(&self.items[index])
    }

    /// A mutable borrow of the value at `index`, if that slot is occupied.
    /// A write through it changes that slot alone.
    pub fn get_mut(&mut self, index: usize) -> (r: Option<&mut T>)
        requires
            old(self).wf(),
        ensures
            final(self).wf(),
            r is Some <==> (index as int) < old(self)@.len(),
            r matches Some(v) ==> {
                &&& *v == old(self)@[index as int]
                &&& final(self)@ == old(self)@.update(index as int, *final(v))
            },
            r is None ==> final(self)@ == old(self)@,
    {
        if index >= self.pos {
            return None;
        }
        Some(&mut self.items[index])
    }

    /// The value at `index`, which the caller has to know is occupied.
    pub fn get_unchecked(&mut self, index: usize) -> (r: &T)
        requires
            old(self).wf(),
            (index as int) < old(self)@.len(),
        ensures
            *r == old(self)@[index as int],
            *final(self) == *old(self),
    {
        &self.items[index]
    }

    /// A mutable borrow of the value at `index`, which the caller has to
    /// know is occupied. A write through it changes that slot alone.
    pub fn get_unchecked_mut(&mut self, index: usize) -> (r: &mut T)
        requires
            old(self).wf(),
            (index as int) < old(self)@.len(),
        ensures
            final(self).wf(),
            *r == old(self)@[index as int],
            final(self)@ == old(self)@.update(index as int, *final(r)),
    {
        &mut self.items[index]
    }

    /// The occupied region as a slice, bottom first.
    pub fn get_init_slice(&self) -> (r: &[T])
        requires
            self.wf(),
        ensures
            r@ == self@,
    {
        self.items.as_slice()
    }

    /// The occupied region as a mutable slice, bottom first. The store ends
    /// up holding what the slice holds when the borrow ends, and stays well
    /// formed as long as the slice keeps its length.
    pub fn get_init_slice_mut(&mut self) -> (r: &mut [T])
        requires
            old(self).wf(),
        ensures
            r@ == old(self)@,
            final(self)@ == final(r)@,
            final(r)@.len() == r@.len() ==> final(self).wf(),
    {
        self.items.as_mut_slice()
    }
}

} // verus!
