use vstd::arithmetic::div_mod::{lemma_add_mod_noop, lemma_mod_self_0, lemma_small_mod};
use vstd::prelude::*;

verus! {

/// The `n` items of `s` that follow one another from position `start` on,
/// continuing at the front of `s` once its end is passed.
pub open spec fn wrapping_window<T>(s: Seq<T>, start: int, n: int) -> Seq<T>
    recommends
        s.len() > 0,
{
    Seq::new(n as nat, |j: int| s[(start + j) % (s.len() as int)])
}

/// The items that an array of references points at.
pub open spec fn pointed_items<T, const N: usize>(a: [&T; N]) -> Seq<T> {
    a@.map_values(|x: &T| *x)
}

/// Whether `r` holds a window whose items are `w`.
pub open spec fn yields_window<T, const N: usize>(r: Option<[&T; N]>, w: Seq<T>) -> bool {
    match r {
        Some(a) => pointed_items(a) == w,
        None => false,
    }
}

/// Overlapping windows of `N` consecutive items that wrap around the end of a
/// sequence, one window starting at each of its items.
pub trait WrappingWindows {
    type Item;

    /// The items whose windows are produced.
    spec fn window_source(&self) -> Seq<Self::Item>;

    /// An iterator over the windows of length `N`: as many windows as there
    /// are items, the `i`-th starting at item `i`.
    fn wrapping_windows<const N: usize>(&self) -> (r: WrappingWindowsIter<'_, Self::Item, N>)
        ensures
            r.items() == self.window_source(),
            r.front() == 0,
            r.back() == self.window_source().len(),
    ;
}

impl<T> WrappingWindows for [T] {
    type Item = T;

    open spec fn window_source(&self) -> Seq<T> {
        self@
    }

    fn wrapping_windows<const N: usize>(&self) -> (r: WrappingWindowsIter<'_, T, N>) {
        WrappingWindowsIter::new(self)
    }
}

impl<T> WrappingWindows for Vec<T> {
    type Item = T;

    open spec fn window_source(&self) -> Seq<T> {
        self@
    }

    fn wrapping_windows<const N: usize>(&self) -> (r: WrappingWindowsIter<'_, T, N>) {
        self.as_slice().wrapping_windows()
    }
}

/// Walks the wrapping windows of a slice from both ends. The windows still to
/// come are those starting at positions `front()` up to, but excluding, `back()`.
#[derive(Debug)]
pub struct WrappingWindowsIter<'a, T, const N: usize> {
    v: &'a [T],
    idx: usize,
    end: usize,
}

impl<'a, T, const N: usize> WrappingWindowsIter<'a, T, N> {
    #[verifier::type_invariant]
    spec fn well_formed(self) -> bool {
        self.idx <= self.end && self.end <= self.v@.len()
    }

    /// The items whose windows are walked.
    pub closed spec fn items(&self) -> Seq<T> {
        self.v@
    }

    /// Start position of the next window from the front.
    pub closed spec fn front(&self) -> int {
        self.idx as int
    }

    /// One past the start position of the next window from the back.
    pub closed spec fn back(&self) -> int {
        self.end as int
    }

    /// The window that starts at position `start` of the items.
    pub open spec fn window_at(&self, start: int) -> Seq<T> {
        wrapping_window(self.items(), start, N as int)
    }

    pub fn new(v: &'a [T]) -> (r: Self)
        ensures
            r.items() == v@,
            r.front() == 0,
            r.back() == v@.len(),
    {
        WrappingWindowsIter { v, idx: 0, end: v.len() }
    }

    /// The window of `N` items starting at position `start`, wrapping around
    /// the end of the items as often as needed.
    pub fn get_array_starting_at(&self, start: usize) -> (r: [&'a T; N])
        requires
            self.items().len() > 0,
        ensures
            pointed_items(r) == self.window_at(start as int),
    {
        let len = self.v.len();
        let mut idx: usize = start % len;
        let mut arr: [&'a T; N] = [&self.v[idx]; N];
        let mut i: usize = 0;
        while i < N
            invariant
                len == self.v@.len(),
                len > 0,
                i <= N,
                idx < len,
                idx as int == (start as int + i as int) % (len as int),
                arr@.len() == N,
                forall|j: int| 0 <= j < i ==> *arr@[j] == self.v@[(start as int + j) % (len as int)],
            decreases N - i,
        {
            arr[i] = &self.v[idx];
            proof {
                let x = start as int + i as int;
                lemma_add_mod_noop(x, 1, len as int);
                if len > 1 {
                    lemma_small_mod(1, len as nat);
                    if idx + 1 < len {
                        lemma_small_mod((idx + 1) as nat, len as nat);
                    } else {
                        lemma_mod_self_0(len as int);
                    }
                } else {
                    lemma_mod_self_0(1);
                    lemma_small_mod(0, 1);
                }
            }
            idx = idx + 1;
            if idx == len {
                idx = 0;
            }
            i = i + 1;
        }
        assert(pointed_items(arr) =~= self.window_at(start as int));
        arr
    }

    /// The number of windows still to come, as a lower and an upper bound.
    pub fn size_hint(&self) -> (r: (usize, Option<usize>))
        ensures
            r.0 == self.back() - self.front(),
            r.1 == Some(r.0),
    {
        proof {
            use_type_invariant(self);
        }
        let size = self.end - self.idx;
        (size, Some(size))
    }

    /// The number of windows still to come.
    pub fn len(&self) -> (r: usize)
        ensures
            r == self.back() - self.front(),
    {
        proof {
            use_type_invariant(self);
        }
        self.end - self.idx
    }

    /// Consumes the iterator, giving the number of windows that were still to come.
    pub fn count(self) -> (r: usize)
        ensures
            r == self.back() - self.front(),
    {
        self.len()
    }

    /// The next window from the front, if any is left.
    pub fn next(&mut self) -> (r: Option<[&'a T; N]>)
        ensures
            final(self).items() == old(self).items(),
            final(self).back() == old(self).back(),
            old(self).front() < old(self).back() ==> {
                &&& yields_window(r, old(self).window_at(old(self).front()))
                &&& final(self).front() == old(self).front() + 1
            },
            old(self).front() >= old(self).back() ==> {
                &&& r is None
                &&& final(self).front() == old(self).front()
            },
    {
        proof {
            use_type_invariant(&*self);
        }
        if self.idx >= self.end {
            None
        } else {
            let ret = self.get_array_starting_at(self.idx);
            self.idx = self.idx + 1;
            Some(ret)
        }
    }

    /// Skips `n` windows from the front and gives the one after them, if any;
    /// when too few are left, the iterator ends up empty.
    pub fn nth(&mut self, n: usize) -> (r: Option<[&'a T; N]>)
        ensures
            final(self).items() == old(self).items(),
            final(self).back() == old(self).back(),
            old(self).front() + n < old(self).back() ==> {
                &&& yields_window(r, old(self).window_at(old(self).front() + n))
                &&& final(self).front() == old(self).front() + n + 1
            },
            old(self).front() + n >= old(self).back() ==> {
                &&& r is None
                &&& final(self).front() == old(self).back()
            },
    {
        proof {
            use_type_invariant(&*self);
        }
        if n >= self.end - self.idx {
            self.idx = self.end;
            None
        } else {
            let start = self.idx + n;
            self.idx = start + 1;
            Some(self.get_array_starting_at(start))
        }
    }

    /// Consumes the iterator, giving the last window still to come, if any.
    pub fn last(self) -> (r: Option<[&'a T; N]>)
        ensures
            self.front() < self.back() ==> yields_window(r, self.window_at(self.back() - 1)),
            self.front() >= self.back() ==> r is None,
    {
        proof {
            use_type_invariant(&self);
        }
        if self.idx >= self.end {
            None
        } else {
            Some(self.get_array_starting_at(self.end - 1))
        }
    }

    /// The next window from the back, if any is left.
    pub fn next_back(&mut self) -> (r: Option<[&'a T; N]>)
        ensures
            final(self).items() == old(self).items(),
            final(self).front() == old(self).front(),
            old(self).front() < old(self).back() ==> {
                &&& yields_window(r, old(self).window_at(old(self).back() - 1))
                &&& final(self).back() == old(self).back() - 1
            },
            old(self).front() >= old(self).back() ==> {
                &&& r is None
                &&& final(self).back() == old(self).back()
            },
    {
        proof {
            use_type_invariant(&*self);
        }
        if self.idx >= self.end {
            None
        } else {
            let ret = self.get_array_starting_at(self.end - 1);
            self.end = self.end - 1;
            Some(ret)
        }
    }

    /// Skips `n` windows from the back and gives the one before them, if any;
    /// when too few are left, the iterator ends up empty.
    pub fn nth_back(&mut self, n: usize) -> (r: Option<[&'a T; N]>)
        ensures
            final(self).items() == old(self).items(),
            final(self).front() == old(self).front(),
            old(self).front() + n < old(self).back() ==> {
                &&& yields_window(r, old(self).window_at(old(self).back() - 1 - n))
                &&& final(self).back() == old(self).back() - 1 - n
            },
            old(self).front() + n >= old(self).back() ==> {
                &&& r is None
                &&& final(self).back() == old(self).front()
            },
    {
        proof {
            use_type_invariant(&*self);
        }
        if n >= self.end - self.idx {
            self.end = self.idx;
            None
        } else {
            let start = self.end - 1 - n;
            self.end = start;
            Some(self.get_array_starting_at(start))
        }
    }
}

} // verus!
