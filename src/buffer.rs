use vstd::prelude::*;

use vstd::std_specs::iter::IteratorSpec;

verus! {

/// The last `n` items of `s`, or all of them when there are fewer.
pub open spec fn keep_last<T>(s: Seq<T>, n: nat) -> Seq<T> {
    if s.len() > n {
        s.subrange(s.len() - n, s.len() as int)
    } else {
        s
    }
}

/// A history that keeps the `N` most recent items, oldest first.
pub struct Buffer<const N: usize, T> {
    buf: Vec<T>,
}

impl<const N: usize, T> View for Buffer<N, T> {
    type V = Seq<T>;

    closed spec fn view(&self) -> Seq<T> {
        self.buf@
    }
}

impl<const N: usize, T> Buffer<N, T> {
    /// Never more than `N` items.
    pub open spec fn wf(&self) -> bool {
        self@.len() <= N
    }

    /// An empty history.
    pub fn new() -> (r: Self)
        ensures
            r@ == Seq::<T>::empty(),
            r.wf(),
    {
        Buffer { buf: Vec::new() }
    }

    /// Appends `item`, dropping the oldest item when more than `N` would
    /// be kept.
    pub fn push(&mut self, item: T)
        requires
            old(self).wf(),
        ensures
            final(self).wf(),
            final(self)@ == keep_last(old(self)@.push(item), N as nat),
    {
        self.buf.push(item);
        if self.buf.len() > N {
            self.buf.remove(0);
            assert(self.buf@ =~= keep_last(old(self)@.push(item), N as nat));
        }
    }

    /// The items, oldest first.
    pub fn iter(&self) -> (r: std::slice::Iter<'_, T>)
        ensures
            r.remaining() == self@.as_ref(),
    {
        self.buf.as_slice().iter()
    }

    /// How many items are kept.
    pub fn len(&self) -> (r: usize)
        ensures
            r == self@.len(),
    {
        self.buf.len()
    }
}

} // verus!
