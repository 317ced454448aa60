use vstd::prelude::*;

verus! {

/// A list of at most `N` items, stored inline.
#[derive(Copy, Clone, Eq, PartialEq, Debug)]
pub struct List<T, const N: usize> {
    items: [T; N],
    len: usize,
}

impl<T: Copy, const N: usize> List<T, N> {
    /// The items of the list, in order.
    pub closed spec fn view(&self) -> Seq<T> {
        self.items@.take(self.len as int)
    }

    /// The list holds at most `N` items.
    pub closed spec fn wf(&self) -> bool {
        self.len <= N
    }

    /// The list of the first `len` items of `items`.
    pub fn new(items: [T; N], len: usize) -> (r: Self)
        requires
            len <= N,
        ensures
            r.wf(),
            r.view() == items@.take(len as int),
    {
        List { items, len }
    }

    /// The number of items.
    pub fn len(&self) -> (r: usize)
        requires
            self.wf(),
        ensures
            r == self.view().len(),
    {
        self.len
    }

    /// The item at `index`.
    pub fn get(&self, index: usize) -> (r: T)
        requires
            self.wf(),
            index < self.view().len(),
        ensures
            r == self.view()[index as int],
    {
        self.items[index]
    }

    /// Removes the item at `index` and puts the last item in its place.
    /// Returns the item that now stands at `index`, or `None` where the
    /// removed item was the last one.
    pub fn swap_remove(&mut self, index: usize) -> (r: Option<T>)
        requires
            old(self).wf(),
            index < old(self).view().len(),
        ensures
            final(self).wf(),
            final(self).view() == (if index + 1 == old(self).view().len() {
                old(self).view().drop_last()
            } else {
                old(self).view().update(index as int, old(self).view().last()).drop_last()
            }),
            r == (if index + 1 == old(self).view().len() {
                None::<T>
            } else {
                Some(old(self).view().last())
            }),
    {
        self.len = self.len - 1;
        if index == self.len {
            assert(self.view() =~= old(self).view().drop_last());
            None
        } else {
            let last = self.items[self.len];
            let removed = self.items[index];
            self.items[index] = last;
            self.items[self.len] = removed;
            assert(self.view() =~= old(self).view().update(index as int, old(self).view().last()).drop_last());
            Some(last)
        }
    }
}

} // verus!
